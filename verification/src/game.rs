//! The game state and its tick.
//!
//! The engine decides, the caller acts. A tick takes the input code that was
//! read, moves the player and the enemies, and hands back one frame for each
//! entity: the panel to release, the panel to make, and the line of the
//! status display that the entity is reported on. The caller carries the
//! frames out in order, each release before the panel that takes its place,
//! and gives each new handle to `adopt`.

use crate::entity::{Dest, Enemy, Player, KEY_F4, SCREEN_MAX};
use crate::panel::{
    arm_for, arm_of, draw_entity, installed, panel_at, registry_after, Arm, Panel, Redraw,
};
use rand::rngs::ThreadRng;
use std::collections::HashMap;
use vstd::prelude::*;

verus! {

broadcast use vstd::std_specs::hash::group_hash_axioms;

/// The player's id in the registry. Enemy number `i` has id `i + 1`.
pub const PLAYER_ID: i8 = 0;

/// How many enemies a game has.
pub const ENEMIES: usize = 2;

/// The most enemies that the ids can tell apart.
pub const ENEMIES_MAX: usize = 127;

/// The two states of the game loop.
#[derive(Debug, Clone, Copy, PartialEq, Eq, Structural)]
pub enum Phase {
    Running,
    Terminated,
}

/// What the status display says of an entity: its position, damage and hit
/// points, and for the player the facing.
#[derive(Debug, Clone, Copy, PartialEq, Eq)]
pub struct Report {
    pub pos: (usize, usize),
    pub dmg: usize,
    pub hp: usize,
    pub dest: Option<Dest>,
}

/// What a tick asks the caller to show for one entity: the redraw of its
/// panel, if it has one, and the report of its state with the line, counted
/// from the bottom of the screen, on which it is written.
#[derive(Debug, Clone, Copy, PartialEq, Eq)]
pub struct Frame {
    pub id: i8,
    pub status_line: i32,
    pub report: Report,
    pub redraw: Option<Redraw>,
}

/// The outcome of a tick: the state of the loop after it, and the frames to
/// carry out, the player's first.
#[derive(Debug)]
pub struct Turn {
    pub phase: Phase,
    pub frames: Vec<Frame>,
}

/// The whole game: the alive flag, the entities, the handle of each
/// entity's panel by id, and the generator that the enemies walk by.
pub struct GameState {
    pub is_alive: bool,
    pub player: Player,
    pub enemies: Vec<Enemy>,
    pub entities: HashMap<i8, usize>,
    pub rng: ThreadRng,
}

impl GameState {
    /// The enemies can be told apart by their ids, and each of them can take
    /// a step.
    pub open spec fn wf(self) -> bool {
        &&& self.enemies@.len() <= ENEMIES_MAX
        &&& forall|i: int| 0 <= i < self.enemies@.len() ==> (#[trigger] self.enemies@[i]).can_walk()
    }

    /// Every enemy is on the grid.
    pub open spec fn all_on_grid(self) -> bool {
        forall|i: int| 0 <= i < self.enemies@.len() ==> (#[trigger] self.enemies@[i]).on_grid()
    }

    /// Every entity has a panel in the registry.
    pub open spec fn all_registered(self) -> bool {
        forall|id: i8| 0 <= id <= self.enemies@.len() ==> self.entities@.contains_key(id)
    }

    /// The position of the entity with id `k`.
    pub open spec fn entity_pos(self, k: int) -> (usize, usize) {
        if k == 0 {
            self.player.pos
        } else {
            self.enemies@[k - 1].pos
        }
    }

    /// The report of the entity with id `k`, as it stands.
    pub open spec fn report_of(self, k: int) -> Report {
        if k == 0 {
            Report {
                pos: self.player.pos,
                dmg: self.player.dmg,
                hp: self.player.hp,
                dest: Some(self.player.dest),
            }
        } else {
            Report {
                pos: self.enemies@[k - 1].pos,
                dmg: self.enemies@[k - 1].dmg,
                hp: self.enemies@[k - 1].hp,
                dest: None,
            }
        }
    }

    /// The redraw of `win_id` at line `lin` and column `col`: none if the id
    /// has no panel; else the old panel goes, a panel of an entity's size
    /// comes at the new place, and the player's gets the mark of the facing.
    pub open spec fn redraw_of(self, lin: usize, col: usize, win_id: i8) -> Option<Redraw> {
        if self.entities@.contains_key(win_id) {
            Some(
                Redraw {
                    id: win_id,
                    stale: self.entities@[win_id],
                    panel: panel_at(lin, col, false),
                    arm: if win_id == PLAYER_ID {
                        Some(arm_of(self.player.dest))
                    } else {
                        None
                    },
                },
            )
        } else {
            None
        }
    }

    /// The frame of the entity with id `k`: the player is reported on the
    /// last line of the screen, enemy `i` on the line `i + 2` from the bottom.
    pub open spec fn frame_of(self, k: int) -> Frame {
        Frame {
            id: k as i8,
            status_line: (k + 1) as i32,
            report: self.report_of(k),
            redraw: self.redraw_of(self.entity_pos(k).0, self.entity_pos(k).1, k as i8),
        }
    }

    /// A new game: alive, the player at its starting place, the enemies at
    /// random places of the world, and no panel made yet.
    pub fn new(rng: ThreadRng) -> (g: Self)
        ensures
            g.is_alive,
            g.player.pos == (5usize, 5usize),
            g.player.dest == Dest::O,
            g.player.dmg == 2,
            g.player.hp == 20,
            g.enemies@.len() == ENEMIES,
            forall|i: int|
                0 <= i < g.enemies@.len() ==> {
                    &&& (#[trigger] g.enemies@[i]).in_world()
                    &&& 2 <= g.enemies@[i].pos.0
                    &&& 5 <= g.enemies@[i].pos.1
                    &&& g.enemies@[i].dmg == 2
                    &&& g.enemies@[i].hp == 20
                },
            g.entities@ == Map::<i8, usize>::empty(),
            g.wf(),
            g.all_on_grid(),
    {
        let mut rng = rng;
        let player = Player::default();
        let first = Enemy::new(&mut rng);
        let second = Enemy::new(&mut rng);
        let enemies: Vec<Enemy> = vec![first, second];
        let entities: HashMap<i8, usize> = HashMap::new();
        GameState { is_alive: true, player, enemies, entities, rng }
    }

    /// The panels to make when the game opens, one for each entity in the
    /// order of the ids. The caller makes them and gives the handles, in
    /// the same order, to `install`.
    pub fn opening(&self) -> (panels: Vec<Panel>)
        requires
            self.wf(),
            self.player.on_screen(),
        ensures
            panels@.len() == self.enemies@.len() + 1,
            forall|k: int|
                0 <= k < panels@.len() ==> #[trigger] panels@[k] == panel_at(
                    self.entity_pos(k).0,
                    self.entity_pos(k).1,
                    false,
                ),
    {
        let mut panels: Vec<Panel> = Vec::new();
        panels.push(draw_entity(self.player.pos.0, self.player.pos.1, false));
        let n: usize = self.enemies.len();
        let mut i: usize = 0;
        while i < n
            invariant
                n == self.enemies@.len(),
                self.wf(),
                i <= n,
                panels@.len() == i + 1,
                forall|k: int|
                    0 <= k < panels@.len() ==> #[trigger] panels@[k] == panel_at(
                        self.entity_pos(k).0,
                        self.entity_pos(k).1,
                        false,
                    ),
            decreases n - i,
        {
            let enemy = self.enemies[i];
            panels.push(draw_entity(enemy.pos.0, enemy.pos.1, false));
            i += 1;
        }
        panels
    }

    /// Registers the panels that were made for `opening`: the handle at
    /// place `k` becomes the panel of the entity with id `k`. From then on
    /// every entity has a panel.
    pub fn install(&mut self, handles: &Vec<usize>)
        requires
            old(self).enemies@.len() <= ENEMIES_MAX,
            handles@.len() == old(self).enemies@.len() + 1,
        ensures
            final(self).entities@ == installed(old(self).entities@, handles@),
            final(self).all_registered(),
            final(self).is_alive == old(self).is_alive,
            final(self).player == old(self).player,
            final(self).enemies == old(self).enemies,
    {
        let n: usize = handles.len();
        let mut k: usize = 0;
        while k < n
            invariant
                k <= n,
                n == handles@.len(),
                n == self.enemies@.len() + 1,
                n <= ENEMIES_MAX + 1,
                self.is_alive == old(self).is_alive,
                self.player == old(self).player,
                self.enemies == old(self).enemies,
                self.entities@ == installed(old(self).entities@, handles@.take(k as int)),
            decreases n - k,
        {
            self.entities.insert(k as i8, handles[k]);
            assert(self.entities@ =~= installed(old(self).entities@, handles@.take(k + 1)));
            k += 1;
        }
        assert(handles@.take(n as int) =~= handles@);
    }

    /// Registers `handle` as the panel of `win_id`, in place of the handle
    /// that the id had, if any.
    pub fn adopt(&mut self, win_id: i8, handle: usize)
        ensures
            final(self).entities@ == old(self).entities@.insert(win_id, handle),
            old(self).entities@.contains_key(win_id) ==> final(self).entities@ == registry_after(
                old(self).entities@,
                win_id,
                handle,
            ),
            old(self).all_registered() ==> final(self).all_registered(),
            final(self).is_alive == old(self).is_alive,
            final(self).player == old(self).player,
            final(self).enemies == old(self).enemies,
    {
        self.entities.insert(win_id, handle);
    }

    /// While every entity has a panel, every frame holds a redraw, and it
    /// releases the very panel that the registry has for the entity.
    pub proof fn lemma_registered_frames(self, k: int)
        requires
            self.all_registered(),
            0 <= k <= self.enemies@.len() <= ENEMIES_MAX,
        ensures
            self.frame_of(k).redraw.is_some(),
            self.frame_of(k).redraw.unwrap().id == k,
            self.frame_of(k).redraw.unwrap().stale == self.entities@[k as i8],
            self.frame_of(k).redraw.unwrap().arm.is_some() <==> k == 0,
    {
        assert(self.entities@.contains_key(k as i8));
    }

    /// The mark that shows the player's facing.
    pub fn draw_arm(&self) -> (a: Arm)
        ensures
            a == arm_of(self.player.dest),
    {
        arm_for(self.player.dest)
    }

    /// Plans the redraw of `win_id` at line `lin` and column `col`. An id
    /// without a panel is not drawn.
    pub fn draw(&self, lin: usize, col: usize, win_id: i8) -> (r: Option<Redraw>)
        requires
            lin <= SCREEN_MAX,
            col <= SCREEN_MAX,
        ensures
            r == self.redraw_of(lin, col, win_id),
    {
        match self.entities.get(&win_id) {
            Some(current) => {
                let arm = if win_id == PLAYER_ID {
                    Some(self.draw_arm())
                } else {
                    None
                };
                Some(
                    Redraw {
                        id: win_id,
                        stale: *current,
                        panel: draw_entity(lin, col, false),
                        arm,
                    },
                )
            },
            None => None,
        }
    }

    /// Lets every enemy take one random step.
    pub fn update_enemies(&mut self)
        requires
            old(self).wf(),
        ensures
            final(self).wf(),
            final(self).all_on_grid(),
            final(self).is_alive == old(self).is_alive,
            final(self).player == old(self).player,
            final(self).entities == old(self).entities,
            final(self).enemies@.len() == old(self).enemies@.len(),
            forall|i: int|
                0 <= i < old(self).enemies@.len() ==> (#[trigger] old(self).enemies@[i]).steps_to(
                    final(self).enemies@[i],
                ),
    {
        let n: usize = self.enemies.len();
        let mut i: usize = 0;
        while i < n
            invariant
                i <= n,
                n == self.enemies@.len(),
                n == old(self).enemies@.len(),
                old(self).wf(),
                self.wf(),
                self.is_alive == old(self).is_alive,
                self.player == old(self).player,
                self.entities == old(self).entities,
                forall|j: int|
                    0 <= j < i ==> (#[trigger] old(self).enemies@[j]).steps_to(self.enemies@[j]),
                forall|j: int| 0 <= j < i ==> (#[trigger] self.enemies@[j]).on_grid(),
                forall|j: int| i <= j < n ==> self.enemies@[j] == old(self).enemies@[j],
            decreases n - i,
        {
            let mut enemy = self.enemies[i];
            enemy.generate_random_position(&mut self.rng);
            self.enemies.set(i, enemy);
            i += 1;
        }
    }

    /// The frames of all entities as they stand: the player's first, then
    /// each enemy's in turn.
    pub fn draw_turn(&self) -> (frames: Vec<Frame>)
        requires
            self.wf(),
            self.player.on_screen(),
        ensures
            frames@.len() == self.enemies@.len() + 1,
            forall|k: int| 0 <= k < frames@.len() ==> #[trigger] frames@[k] == self.frame_of(k),
    {
        let mut frames: Vec<Frame> = Vec::new();
        let report = Report {
            pos: self.player.pos,
            dmg: self.player.dmg,
            hp: self.player.hp,
            dest: Some(self.player.dest),
        };
        let redraw = self.draw(self.player.pos.0, self.player.pos.1, PLAYER_ID);
        frames.push(Frame { id: PLAYER_ID, status_line: 1, report, redraw });
        let n: usize = self.enemies.len();
        let mut i: usize = 0;
        while i < n
            invariant
                n == self.enemies@.len(),
                self.wf(),
                i <= n,
                frames@.len() == i + 1,
                forall|k: int| 0 <= k < frames@.len() ==> #[trigger] frames@[k] == self.frame_of(k),
            decreases n - i,
        {
            let enemy = self.enemies[i];
            let win_id: i8 = 1 + i as i8;
            let report = Report { pos: enemy.pos, dmg: enemy.dmg, hp: enemy.hp, dest: None };
            let redraw = self.draw(enemy.pos.0, enemy.pos.1, win_id);
            frames.push(Frame { id: win_id, status_line: 2 + i as i32, report, redraw });
            i += 1;
        }
        frames
    }

    /// Tells whether `tick` may be called with `key`.
    pub fn can_tick(&self, key: i32) -> (b: bool)
        ensures
            b == (key != KEY_F4 ==> self.wf() && self.player.lands_on_screen(key)),
    {
        if key == KEY_F4 {
            return true;
        }
        let n: usize = self.enemies.len();
        if n > ENEMIES_MAX || !self.player.may_land(key) {
            return false;
        }
        let mut i: usize = 0;
        while i < n
            invariant
                i <= n,
                n == self.enemies@.len(),
                n <= ENEMIES_MAX,
                key != KEY_F4,
                self.player.lands_on_screen(key),
                forall|j: int| 0 <= j < i ==> (#[trigger] self.enemies@[j]).can_walk(),
            decreases n - i,
        {
            let enemy = self.enemies[i];
            if enemy.pos.0 >= SCREEN_MAX || enemy.pos.1 >= SCREEN_MAX {
                return false;
            }
            i += 1;
        }
        true
    }

    /// One tick of the loop for the input code `key`, where any code that
    /// the engine does not know stands for "no input". The quit code ends
    /// the game at once: nothing moves and nothing is drawn. Otherwise an
    /// arrow moves the player, every enemy takes a random step, all
    /// entities are framed, and the loop goes on as long as the alive flag
    /// is set.
    pub fn tick(&mut self, key: i32) -> (turn: Turn)
        requires
            key != KEY_F4 ==> old(self).wf() && old(self).player.lands_on_screen(key),
        ensures
            old(self).wf() ==> final(self).wf(),
            key == KEY_F4 ==> {
                &&& turn.phase == Phase::Terminated
                &&& turn.frames@.len() == 0
                &&& final(self).player == old(self).player
                &&& final(self).enemies == old(self).enemies
            },
            key != KEY_F4 ==> {
                &&& turn.phase == if old(self).is_alive {
                    Phase::Running
                } else {
                    Phase::Terminated
                }
                &&& final(self).player.dest == old(self).player.facing_after(key)
                &&& final(self).player.pos.0 == old(self).player.pos_after(key).0
                &&& final(self).player.pos.1 == old(self).player.pos_after(key).1
                &&& final(self).player.dmg == old(self).player.dmg
                &&& final(self).player.hp == old(self).player.hp
                &&& final(self).enemies@.len() == old(self).enemies@.len()
                &&& final(self).all_on_grid()
                &&& forall|i: int|
                    0 <= i < old(self).enemies@.len() ==> (#[trigger] old(self).enemies@[i]).steps_to(
                        final(self).enemies@[i],
                    )
                &&& turn.frames@.len() == final(self).enemies@.len() + 1
                &&& forall|k: int|
                    0 <= k < turn.frames@.len() ==> #[trigger] turn.frames@[k] == final(self).frame_of(k)
            },
            final(self).is_alive == old(self).is_alive,
            final(self).entities == old(self).entities,
            old(self).all_registered() ==> final(self).all_registered(),
    {
        if key == KEY_F4 {
            return Turn { phase: Phase::Terminated, frames: Vec::new() };
        }
        self.player.move_position(key);
        self.update_enemies();
        let frames = self.draw_turn();
        let phase = if self.is_alive {
            Phase::Running
        } else {
            Phase::Terminated
        };
        Turn { phase, frames }
    }
}

} // verus!
