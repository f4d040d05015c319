//! The player, the enemies, and how each of them moves.

use crate::chance::{gen_range, pick};
use rand::rngs::ThreadRng;
use vstd::prelude::*;

verus! {

/// Rows of the world that the enemies walk in.
pub const WORLD_LIN: i32 = 35;

/// Columns of the world that the enemies walk in.
pub const WORLD_COL: i32 = 35;

/// Input code of the "down" arrow.
pub const KEY_DOWN: i32 = 258;

/// Input code of the "up" arrow.
pub const KEY_UP: i32 = 259;

/// Input code of the "left" arrow.
pub const KEY_LEFT: i32 = 260;

/// Input code of the "right" arrow.
pub const KEY_RIGHT: i32 = 261;

/// Input code that ends the game.
pub const KEY_F4: i32 = 268;

/// Largest coordinate that a screen position can have.
pub const SCREEN_MAX: usize = 0x7fff_ffff;

/// Where the player faces: north, south, `L` for the left (west) and `O` for
/// the right (east).
#[derive(Debug, Clone, Copy, PartialEq, Eq, Structural)]
pub enum Dest {
    N,
    S,
    L,
    O,
}

/// The direction that an input code stands for, if it is one of the four
/// arrows.
pub open spec fn key_dest(key: i32) -> Option<Dest> {
    if key == KEY_LEFT {
        Some(Dest::L)
    } else if key == KEY_RIGHT {
        Some(Dest::O)
    } else if key == KEY_UP {
        Some(Dest::N)
    } else if key == KEY_DOWN {
        Some(Dest::S)
    } else {
        None
    }
}

/// The player: position as (line, column), facing, damage and hit points.
#[derive(Debug, Clone, Copy)]
pub struct Player {
    pub pos: (usize, usize),
    pub dest: Dest,
    pub dmg: usize,
    pub hp: usize,
}

impl Default for Player {
    fn default() -> (p: Self)
        ensures
            p.pos == (5usize, 5usize),
            p.dest == Dest::O,
            p.dmg == 2,
            p.hp == 20,
    {
        Player { pos: (5, 5), dmg: 2, dest: Dest::O, hp: 20 }
    }
}

impl Player {
    /// The facing after `key`: the arrow's direction, or the old facing for
    /// any other code.
    pub open spec fn facing_after(self, key: i32) -> Dest {
        match key_dest(key) {
            Some(d) => d,
            None => self.dest,
        }
    }

    /// The position after `key`, as unbounded integers: one cell in the
    /// arrow's direction, or the old position for any other code.
    pub open spec fn pos_after(self, key: i32) -> (int, int) {
        match key_dest(key) {
            Some(Dest::L) => (self.pos.0 as int, self.pos.1 - 1),
            Some(Dest::O) => (self.pos.0 as int, self.pos.1 + 1),
            Some(Dest::N) => (self.pos.0 - 1, self.pos.1 as int),
            Some(Dest::S) => (self.pos.0 + 1, self.pos.1 as int),
            None => (self.pos.0 as int, self.pos.1 as int),
        }
    }

    /// The position can be given to the screen.
    pub open spec fn on_screen(self) -> bool {
        self.pos.0 <= SCREEN_MAX && self.pos.1 <= SCREEN_MAX
    }

    /// The move that `key` asks for can be made: the new coordinates are
    /// not negative and fit the machine's integers. Nothing else bounds the
    /// player. There is no clamp to the world, and at line or column 0 the
    /// step up or left is not turned into another move: it cannot be made.
    pub open spec fn can_move(self, key: i32) -> bool {
        let p = self.pos_after(key);
        0 <= p.0 <= usize::MAX && 0 <= p.1 <= usize::MAX
    }

    /// The move that `key` asks for can be made and leaves the player at a
    /// position that can be given to the screen.
    pub open spec fn lands_on_screen(self, key: i32) -> bool {
        let p = self.pos_after(key);
        0 <= p.0 <= SCREEN_MAX && 0 <= p.1 <= SCREEN_MAX
    }

    /// Tells whether `move_position` may be called with `key`.
    pub fn may_move(&self, key: i32) -> (b: bool)
        ensures
            b == self.can_move(key),
    {
        let (lin, col) = self.pos;
        if key == KEY_LEFT {
            0 < col
        } else if key == KEY_RIGHT {
            col < usize::MAX
        } else if key == KEY_UP {
            0 < lin
        } else if key == KEY_DOWN {
            lin < usize::MAX
        } else {
            true
        }
    }

    /// Tells whether the move that `key` asks for ends on the screen.
    pub fn may_land(&self, key: i32) -> (b: bool)
        ensures
            b == self.lands_on_screen(key),
    {
        let (lin, col) = self.pos;
        if key == KEY_LEFT {
            lin <= SCREEN_MAX && 0 < col && col - 1 <= SCREEN_MAX
        } else if key == KEY_RIGHT {
            lin <= SCREEN_MAX && col < SCREEN_MAX
        } else if key == KEY_UP {
            0 < lin && lin - 1 <= SCREEN_MAX && col <= SCREEN_MAX
        } else if key == KEY_DOWN {
            lin < SCREEN_MAX && col <= SCREEN_MAX
        } else {
            lin <= SCREEN_MAX && col <= SCREEN_MAX
        }
    }

    /// Turns the player as `key` says, then moves one cell that way. The
    /// move is never refused and never clamped. Any code but the four arrows
    /// changes nothing.
    pub fn move_position(&mut self, key: i32)
        requires
            old(self).can_move(key),
        ensures
            final(self).dest == old(self).facing_after(key),
            final(self).pos.0 == old(self).pos_after(key).0,
            final(self).pos.1 == old(self).pos_after(key).1,
            final(self).dmg == old(self).dmg,
            final(self).hp == old(self).hp,
    {
        self.set_dest(key);
        if key == KEY_LEFT {
            self.pos = (self.pos.0, self.pos.1 - 1);
        } else if key == KEY_RIGHT {
            self.pos = (self.pos.0, self.pos.1 + 1);
        } else if key == KEY_UP {
            self.pos = (self.pos.0 - 1, self.pos.1);
        } else if key == KEY_DOWN {
            self.pos = (self.pos.0 + 1, self.pos.1);
        }
    }

    /// Turns the player to the direction of `key`; any code but the four
    /// arrows leaves the facing as it is. The position is not touched.
    pub fn set_dest(&mut self, key: i32)
        ensures
            final(self).dest == old(self).facing_after(key),
            final(self).pos == old(self).pos,
            final(self).dmg == old(self).dmg,
            final(self).hp == old(self).hp,
    {
        if key == KEY_LEFT {
            self.dest = Dest::L;
        } else if key == KEY_RIGHT {
            self.dest = Dest::O;
        } else if key == KEY_UP {
            self.dest = Dest::N;
        } else if key == KEY_DOWN {
            self.dest = Dest::S;
        }
    }
}

/// One axis of an enemy's walk. `sign` is the drawn offset, -1 or 1. The
/// same draw serves for the test at the edges and for the step: a result
/// below 0 becomes 1, a result above `bound` becomes `bound`, and any other
/// result is taken as it is.
pub open spec fn walk_axis(cur: int, bound: int, sign: int) -> int {
    if cur + sign < 0 {
        1
    } else if cur + sign > bound {
        bound
    } else {
        cur + sign
    }
}

/// `next` is what one step of the walk can make of `cur`, for one of the two
/// offsets.
pub open spec fn walk_reaches(cur: int, bound: int, next: int) -> bool {
    next == walk_axis(cur, bound, -1) || next == walk_axis(cur, bound, 1)
}

/// Where a walk ends that starts at `cur` and takes the offsets of `signs`
/// one after the other.
pub open spec fn walk_path(cur: int, bound: int, signs: Seq<int>) -> int
    decreases signs.len(),
{
    if signs.len() == 0 {
        cur
    } else {
        walk_axis(walk_path(cur, bound, signs.drop_last()), bound, signs.last())
    }
}

/// A step never leaves the grid: from any coordinate that is not negative
/// it ends between 0 and the bound.
pub proof fn lemma_step_on_grid(cur: int, bound: int, sign: int)
    requires
        0 <= cur,
        1 <= bound,
        sign == -1 || sign == 1,
    ensures
        0 <= walk_axis(cur, bound, sign) <= bound,
{
}

/// A step from inside the world ends inside the world, between 1 and the
/// bound, but for the step down from 1, which ends at 0.
pub proof fn lemma_step_in_world(cur: int, bound: int, sign: int)
    requires
        1 <= cur <= bound,
        sign == -1 || sign == 1,
        !(cur == 1 && sign == -1),
    ensures
        1 <= walk_axis(cur, bound, sign) <= bound,
{
}

/// Steps at the edges: from the bound itself the walk stays or goes one
/// down, and from 0 it goes to 1 whichever offset is drawn.
pub proof fn lemma_step_at_edges(bound: int)
    requires
        1 <= bound,
    ensures
        walk_axis(bound, bound, 1) == bound,
        walk_axis(bound, bound, -1) == bound - 1,
        walk_axis(0, bound, 1) == 1,
        walk_axis(0, bound, -1) == 1,
{
}

/// The walk is decided by its offsets alone: from one start, two runs with
/// the same offsets are at the same place after every step.
pub proof fn lemma_walk_repeats(cur: int, bound: int, first: Seq<int>, second: Seq<int>)
    requires
        first.len() == second.len(),
        forall|i: int| 0 <= i < first.len() ==> first[i] == second[i],
    ensures
        forall|n: int|
            0 <= n <= first.len() ==> walk_path(cur, bound, #[trigger] first.take(n)) == walk_path(
                cur,
                bound,
                second.take(n),
            ),
{
    assert(first =~= second);
}

/// However long a walk goes on, it stays on the grid.
pub proof fn lemma_path_on_grid(cur: int, bound: int, signs: Seq<int>)
    requires
        0 <= cur <= bound,
        1 <= bound,
        forall|i: int| 0 <= i < signs.len() ==> signs[i] == -1 || signs[i] == 1,
    ensures
        0 <= walk_path(cur, bound, signs) <= bound,
    decreases signs.len(),
{
    if signs.len() > 0 {
        lemma_path_on_grid(cur, bound, signs.drop_last());
        lemma_step_on_grid(walk_path(cur, bound, signs.drop_last()), bound, signs.last());
    }
}

/// A walk that starts inside the world and never steps down from 1 stays
/// inside the world, between 1 and the bound.
pub proof fn lemma_path_in_world(cur: int, bound: int, signs: Seq<int>)
    requires
        1 <= cur <= bound,
        forall|i: int| 0 <= i < signs.len() ==> signs[i] == -1 || signs[i] == 1,
        forall|i: int|
            0 <= i < signs.len() ==> !(walk_path(cur, bound, #[trigger] signs.take(i)) == 1
                && signs[i] == -1),
    ensures
        1 <= walk_path(cur, bound, signs) <= bound,
    decreases signs.len(),
{
    if signs.len() > 0 {
        let front = signs.drop_last();
        assert forall|i: int| 0 <= i < front.len() implies !(walk_path(
            cur,
            bound,
            #[trigger] front.take(i),
        ) == 1 && front[i] == -1) by {
            assert(front.take(i) =~= signs.take(i));
        }
        lemma_path_in_world(cur, bound, front);
        lemma_step_in_world(walk_path(cur, bound, front), bound, signs.last());
    }
}

/// Walks one axis by the drawn offset.
pub fn step_axis(cur: usize, bound: i32, sign: i32) -> (next: usize)
    requires
        cur < SCREEN_MAX,
        0 <= bound,
        sign == -1 || sign == 1,
    ensures
        next == walk_axis(cur as int, bound as int, sign as int),
{
    let moved: i32 = cur as i32 + sign;
    if moved < 0 {
        1
    } else if moved > bound {
        bound as usize
    } else {
        moved as usize
    }
}

/// An enemy: position as (line, column), damage and hit points.
#[derive(Debug, Clone, Copy)]
pub struct Enemy {
    pub pos: (usize, usize),
    pub dmg: usize,
    pub hp: usize,
}

impl Enemy {
    /// The position lies in the world proper: lines 1 to `WORLD_LIN`,
    /// columns 1 to `WORLD_COL`.
    pub open spec fn in_world(self) -> bool {
        1 <= self.pos.0 <= WORLD_LIN && 1 <= self.pos.1 <= WORLD_COL
    }

    /// The position lies in the world or on its zero line or column, which
    /// a step down from 1 reaches.
    pub open spec fn on_grid(self) -> bool {
        self.pos.0 <= WORLD_LIN && self.pos.1 <= WORLD_COL
    }

    /// The enemy may take a step: its coordinates are small enough to be
    /// offset without overflow.
    pub open spec fn can_walk(self) -> bool {
        self.pos.0 < SCREEN_MAX && self.pos.1 < SCREEN_MAX
    }

    /// `next` is this enemy after one step of its walk, whichever offsets
    /// were drawn.
    pub open spec fn steps_to(self, next: Enemy) -> bool {
        &&& walk_reaches(self.pos.0 as int, WORLD_LIN as int, next.pos.0 as int)
        &&& walk_reaches(self.pos.1 as int, WORLD_COL as int, next.pos.1 as int)
        &&& next.dmg == self.dmg
        &&& next.hp == self.hp
    }

    /// A fresh enemy at a random place of the world, from line 2 and column
    /// 5 onward, with damage 2 and 20 hit points.
    pub fn new(rng: &mut ThreadRng) -> (e: Self)
        ensures
            2 <= e.pos.0 <= WORLD_LIN,
            5 <= e.pos.1 <= WORLD_COL,
            e.in_world(),
            e.dmg == 2,
            e.hp == 20,
    {
        let lin: usize = gen_range(rng, 2, WORLD_LIN as usize + 1);
        let col: usize = gen_range(rng, 5, WORLD_COL as usize + 1);
        Enemy { pos: (lin, col), dmg: 2, hp: 20 }
    }

    /// One step of the walk with the two offsets given: `lin_sign` for the
    /// line, `col_sign` for the column. The same offsets always give the
    /// same step.
    pub fn walk(&mut self, lin_sign: i32, col_sign: i32)
        requires
            old(self).can_walk(),
            lin_sign == -1 || lin_sign == 1,
            col_sign == -1 || col_sign == 1,
        ensures
            final(self).pos.0 == walk_axis(old(self).pos.0 as int, WORLD_LIN as int, lin_sign as int),
            final(self).pos.1 == walk_axis(old(self).pos.1 as int, WORLD_COL as int, col_sign as int),
            final(self).dmg == old(self).dmg,
            final(self).hp == old(self).hp,
            final(self).on_grid(),
    {
        let lin = step_axis(self.pos.0, WORLD_LIN, lin_sign);
        let col = step_axis(self.pos.1, WORLD_COL, col_sign);
        self.pos = (lin, col);
    }

    /// One random step: draws one offset for the line and one for the
    /// column, each -1 or 1, and walks by them.
    pub fn generate_random_position(&mut self, rng: &mut ThreadRng)
        requires
            old(self).can_walk(),
        ensures
            old(self).steps_to(*final(self)),
            final(self).on_grid(),
    {
        let minus_or_more: Vec<i32> = vec![-1, 1];
        let lin_sign = draw_sign(rng, &minus_or_more);
        let col_sign = draw_sign(rng, &minus_or_more);
        self.walk(lin_sign, col_sign);
    }
}

/// Draws one of the offsets on offer: the result is always one of them.
fn draw_sign(rng: &mut ThreadRng, minus_or_more: &Vec<i32>) -> (sign: i32)
    requires
        minus_or_more@.len() > 0,
    ensures
        minus_or_more@.contains(sign),
{
    let drawn = pick(rng, minus_or_more);
    let sign: i32 = drawn.unwrap();
    sign
}

} // verus!
