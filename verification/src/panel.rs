//! What is drawn for an entity, and the registry of the panels on screen.
//!
//! A panel is never moved. To show an entity at a new place its old panel is
//! erased and released first, then a new one is made, and the registry takes
//! the new handle in place of the old one.

use crate::entity::{Dest, SCREEN_MAX, WORLD_COL, WORLD_LIN};
use vstd::prelude::*;

verus! {

/// Lines of an entity's panel.
pub const COMPONENT_HEIGHT: i32 = 6;

/// Columns of an entity's panel.
pub const COMPONENT_WIDTH: i32 = 12;

/// A bordered panel to be made: its size, and the screen position of its top
/// left corner.
#[derive(Debug, Clone, Copy, PartialEq, Eq, Structural)]
pub struct Panel {
    pub lines: i32,
    pub cols: i32,
    pub y: i32,
    pub x: i32,
}

/// The panel at `(y, x)`: of the world's size if `world` is set, of an
/// entity's size otherwise.
pub open spec fn panel_at(y: usize, x: usize, world: bool) -> Panel {
    if world {
        Panel { lines: 35, cols: 35, y: y as i32, x: x as i32 }
    } else {
        Panel { lines: 6, cols: 12, y: y as i32, x: x as i32 }
    }
}

/// Lays out the panel to be made at `(y, x)`.
pub fn draw_entity(y: usize, x: usize, world: bool) -> (p: Panel)
    requires
        y <= SCREEN_MAX,
        x <= SCREEN_MAX,
    ensures
        p == panel_at(y, x, world),
{
    if world {
        Panel { lines: WORLD_LIN, cols: WORLD_COL, y: y as i32, x: x as i32 }
    } else {
        Panel { lines: COMPONENT_HEIGHT, cols: COMPONENT_WIDTH, y: y as i32, x: x as i32 }
    }
}

/// The mark on the player's panel that shows the facing: a glyph at a place
/// inside the panel, written as a single character or, if `text` is set, as
/// a string of one character.
#[derive(Debug, Clone, Copy, PartialEq, Eq, Structural)]
pub struct Arm {
    pub y: i32,
    pub x: i32,
    pub glyph: char,
    pub text: bool,
}

/// The mark for a facing: a bar in the middle of the top edge for north and
/// of the bottom edge for south, an `O` in the middle of the left edge for
/// `L` and of the right edge for `O`.
pub open spec fn arm_of(dest: Dest) -> Arm {
    match dest {
        Dest::N => Arm { y: 0, x: 6, glyph: '|', text: false },
        Dest::S => Arm { y: 5, x: 6, glyph: '|', text: false },
        Dest::L => Arm { y: 3, x: 0, glyph: 'O', text: true },
        Dest::O => Arm { y: 3, x: 11, glyph: 'O', text: true },
    }
}

/// Places the mark for a facing on a panel of an entity's size.
pub fn arm_for(dest: Dest) -> (a: Arm)
    ensures
        a == arm_of(dest),
{
    match dest {
        Dest::N => Arm { y: 0, x: COMPONENT_WIDTH / 2, glyph: '|', text: false },
        Dest::S => Arm { y: COMPONENT_HEIGHT - 1, x: COMPONENT_WIDTH / 2, glyph: '|', text: false },
        Dest::L => Arm { y: COMPONENT_HEIGHT / 2, x: 0, glyph: 'O', text: true },
        Dest::O => Arm { y: COMPONENT_HEIGHT / 2, x: COMPONENT_WIDTH - 1, glyph: 'O', text: true },
    }
}

/// One redraw of an entity: the panel `stale` is erased and released, then
/// `panel` is made, and `arm`, if there is one, is written on it.
#[derive(Debug, Clone, Copy, PartialEq, Eq)]
pub struct Redraw {
    pub id: i8,
    pub stale: usize,
    pub panel: Panel,
    pub arm: Option<Arm>,
}

/// The registry and the screen agree: every registered panel is live, every
/// live panel is registered, and no two entities share a panel.
pub open spec fn in_step(reg: Map<i8, usize>, live: Set<usize>) -> bool {
    &&& forall|id: i8| reg.contains_key(id) ==> live.contains(#[trigger] reg[id])
    &&& forall|h: usize| #[trigger]
        live.contains(h) ==> exists|id: i8| reg.contains_key(id) && #[trigger] reg[id] == h
    &&& forall|a: i8, b: i8|
        reg.contains_key(a) && reg.contains_key(b) && #[trigger] reg[a] == #[trigger] reg[b] ==> a
            == b
}

/// The registry after the first panels were made: the entity with id `k`
/// has the handle at place `k`, and any other id has what it had.
pub open spec fn installed(reg: Map<i8, usize>, handles: Seq<usize>) -> Map<i8, usize> {
    Map::new(
        |id: i8| 0 <= id < handles.len() || reg.contains_key(id),
        |id: i8|
            if 0 <= id < handles.len() {
                handles[id as int]
            } else {
                reg[id]
            },
    )
}

/// The registry after a redraw of `id` that made the panel `fresh`. An id
/// that is not registered is not drawn.
pub open spec fn registry_after(reg: Map<i8, usize>, id: i8, fresh: usize) -> Map<i8, usize> {
    if reg.contains_key(id) {
        reg.insert(id, fresh)
    } else {
        reg
    }
}

/// The live panels after a redraw of `id` that made the panel `fresh`: the
/// panel that `id` had is gone, the fresh one is there.
pub open spec fn screen_after(reg: Map<i8, usize>, live: Set<usize>, id: i8, fresh: usize) -> Set<
    usize,
> {
    if reg.contains_key(id) {
        live.remove(reg[id]).insert(fresh)
    } else {
        live
    }
}

/// The first panels put registry and screen in step: if the handles differ
/// from one another and the registry was empty, then the registry holds one
/// panel for each id, and the live panels are the handles that were given.
pub proof fn lemma_installed_in_step(handles: Seq<usize>)
    requires
        handles.no_duplicates(),
        handles.len() <= 128,
    ensures
        in_step(installed(Map::empty(), handles), handles.to_set()),
{
    let reg = installed(Map::empty(), handles);
    let live = handles.to_set();
    assert forall|id: i8| reg.contains_key(id) implies live.contains(#[trigger] reg[id]) by {
        assert(handles.contains(reg[id]));
    }
    assert forall|h: usize| #[trigger] live.contains(h) implies exists|id: i8|
        reg.contains_key(id) && #[trigger] reg[id] == h by {
        assert(handles.contains(h));
        let i = choose|i: int| 0 <= i < handles.len() && handles[i] == h;
        let id = i as i8;
        assert(reg.contains_key(id) && reg[id] == h);
    }
}

/// A redraw keeps registry and screen in step: if they agree before, and the
/// panel made is not among those that are live once the old one is
/// released, they agree afterwards, and the same ids are registered. The new
/// handle may be the one just released.
pub proof fn lemma_redraw_keeps_step(reg: Map<i8, usize>, live: Set<usize>, id: i8, fresh: usize)
    requires
        in_step(reg, live),
        reg.contains_key(id) ==> !live.remove(reg[id]).contains(fresh),
    ensures
        in_step(registry_after(reg, id, fresh), screen_after(reg, live, id, fresh)),
        registry_after(reg, id, fresh).dom() == reg.dom(),
{
    let reg2 = registry_after(reg, id, fresh);
    let live2 = screen_after(reg, live, id, fresh);
    if reg.contains_key(id) {
        assert(reg2.dom() =~= reg.dom());
        assert forall|h: usize| #[trigger] live2.contains(h) implies exists|k: i8|
            reg2.contains_key(k) && #[trigger] reg2[k] == h by {
            if h == fresh {
                assert(reg2.contains_key(id) && reg2[id] == h);
            } else {
                let k = choose|k: i8| reg.contains_key(k) && #[trigger] reg[k] == h;
                assert(reg2.contains_key(k) && reg2[k] == h);
            }
        }
        assert forall|a: i8| reg2.contains_key(a) implies live2.contains(#[trigger] reg2[a]) by {
            if a != id {
                assert(live.contains(reg[a]));
            }
        }
        assert forall|a: i8, b: i8|
            reg2.contains_key(a) && reg2.contains_key(b) && #[trigger] reg2[a] == #[trigger] reg2[b]
            implies a == b by {
            if a != id {
                assert(live.contains(reg[a]));
            }
            if b != id {
                assert(live.contains(reg[b]));
            }
        }
    }
}

/// Two redraws of one entity in a row leave it with exactly one panel, the
/// one made last. Neither the panel it had at first nor the panel of the
/// first redraw is left on the screen, unless its handle was given out
/// again for the last one. Every other panel is as it was, and registry and
/// screen still agree.
pub proof fn lemma_redraw_twice(
    reg: Map<i8, usize>,
    live: Set<usize>,
    id: i8,
    first: usize,
    second: usize,
)
    requires
        in_step(reg, live),
        reg.contains_key(id),
        !live.remove(reg[id]).contains(first),
        !live.remove(reg[id]).contains(second),
    ensures
        ({
            let reg1 = registry_after(reg, id, first);
            let live1 = screen_after(reg, live, id, first);
            let reg2 = registry_after(reg1, id, second);
            let live2 = screen_after(reg1, live1, id, second);
            &&& in_step(reg2, live2)
            &&& reg2 == reg.insert(id, second)
            &&& live2 == live.remove(reg[id]).insert(second)
            &&& live2.contains(second)
            &&& first != second ==> !live2.contains(first)
            &&& reg[id] != second ==> !live2.contains(reg[id])
            &&& forall|k: i8| reg2.contains_key(k) && reg2[k] == second ==> k == id
        }),
{
    let reg1 = registry_after(reg, id, first);
    let live1 = screen_after(reg, live, id, first);
    let reg2 = registry_after(reg1, id, second);
    let live2 = screen_after(reg1, live1, id, second);
    lemma_redraw_keeps_step(reg, live, id, first);
    assert(live1.remove(first) =~= live.remove(reg[id]));
    lemma_redraw_keeps_step(reg1, live1, id, second);
    assert(reg2 =~= reg.insert(id, second));
    assert(live2 =~= live.remove(reg[id]).insert(second));
}

} // verus!
