use grid_arena::entity::{
    Dest, Enemy, KEY_DOWN, KEY_F4, KEY_LEFT, KEY_RIGHT, KEY_UP, SCREEN_MAX,
};
use grid_arena::game::{Frame, GameState, Phase, Report, ENEMIES, ENEMIES_MAX, PLAYER_ID};
use grid_arena::panel::{arm_for, draw_entity, Arm, Panel, Redraw};

fn opened() -> GameState {
    let mut game = GameState::new(rand::thread_rng());
    let handles: Vec<usize> = game.opening().iter().enumerate().map(|(id, _)| 100 + id).collect();
    game.install(&handles);
    game
}

#[test]
fn entity_panel_is_six_by_twelve() {
    assert_eq!(draw_entity(5, 6, false), Panel { lines: 6, cols: 12, y: 5, x: 6 });
}

#[test]
fn world_panel_is_the_size_of_the_world() {
    assert_eq!(draw_entity(0, 3, true), Panel { lines: 35, cols: 35, y: 0, x: 3 });
}

#[test]
fn arm_sits_on_the_edge_that_the_player_faces() {
    assert_eq!(arm_for(Dest::N), Arm { y: 0, x: 6, glyph: '|', text: false });
    assert_eq!(arm_for(Dest::S), Arm { y: 5, x: 6, glyph: '|', text: false });
    assert_eq!(arm_for(Dest::L), Arm { y: 3, x: 0, glyph: 'O', text: true });
    assert_eq!(arm_for(Dest::O), Arm { y: 3, x: 11, glyph: 'O', text: true });
}

#[test]
fn new_game_has_player_and_two_enemies_and_no_panel() {
    let game = GameState::new(rand::thread_rng());
    assert!(game.is_alive);
    assert_eq!(game.player.pos, (5, 5));
    assert_eq!(game.player.dest, Dest::O);
    assert_eq!(game.enemies.len(), ENEMIES);
    assert_eq!(game.enemies.len(), 2);
    for e in game.enemies.iter() {
        assert!(2 <= e.pos.0 && e.pos.0 <= 35);
        assert!(5 <= e.pos.1 && e.pos.1 <= 35);
        assert_eq!((e.dmg, e.hp), (2, 20));
    }
    assert!(game.entities.is_empty());
}

#[test]
fn opening_lists_a_panel_for_each_entity() {
    let game = GameState::new(rand::thread_rng());
    let panels = game.opening();
    assert_eq!(panels.len(), 3);
    assert_eq!(panels[0], Panel { lines: 6, cols: 12, y: 5, x: 5 });
    for (i, e) in game.enemies.iter().enumerate() {
        let expected = Panel { lines: 6, cols: 12, y: e.pos.0 as i32, x: e.pos.1 as i32 };
        assert_eq!(panels[i + 1], expected);
    }
}

#[test]
fn install_gives_every_entity_its_panel() {
    let mut game = GameState::new(rand::thread_rng());
    game.adopt(9, 77);
    game.adopt(1, 78);
    game.install(&vec![40, 41, 42]);
    assert_eq!(game.entities.len(), 4);
    assert_eq!(game.entities.get(&0), Some(&40));
    assert_eq!(game.entities.get(&1), Some(&41));
    assert_eq!(game.entities.get(&2), Some(&42));
    assert_eq!(game.entities.get(&9), Some(&77));
}

#[test]
fn adopt_registers_and_replaces() {
    let mut game = GameState::new(rand::thread_rng());
    game.adopt(PLAYER_ID, 7);
    assert_eq!(game.entities.get(&0), Some(&7));
    game.adopt(PLAYER_ID, 9);
    assert_eq!(game.entities.get(&0), Some(&9));
    assert_eq!(game.entities.len(), 1);
}

#[test]
fn draw_of_an_unknown_id_is_nothing() {
    let game = opened();
    assert_eq!(game.draw(4, 4, 3), None);
    assert_eq!(game.draw(4, 4, -1), None);
    let bare = GameState::new(rand::thread_rng());
    assert_eq!(bare.draw(5, 5, PLAYER_ID), None);
}

#[test]
fn draw_of_the_player_carries_the_arm() {
    let mut game = opened();
    game.player.dest = Dest::N;
    let expected = Redraw {
        id: 0,
        stale: 100,
        panel: Panel { lines: 6, cols: 12, y: 8, x: 9 },
        arm: Some(Arm { y: 0, x: 6, glyph: '|', text: false }),
    };
    assert_eq!(game.draw(8, 9, PLAYER_ID), Some(expected));
    assert_eq!(game.draw_arm(), Arm { y: 0, x: 6, glyph: '|', text: false });
}

#[test]
fn draw_of_an_enemy_has_no_arm() {
    let game = opened();
    let expected =
        Redraw { id: 2, stale: 102, panel: Panel { lines: 6, cols: 12, y: 1, x: 35 }, arm: None };
    assert_eq!(game.draw(1, 35, 2), Some(expected));
}

#[test]
fn redraw_twice_leaves_one_panel_for_the_id() {
    let mut game = opened();
    let mut live: Vec<usize> = vec![100, 101, 102];
    for fresh in [200usize, 201usize] {
        let plan = game.draw(5, 5, PLAYER_ID).unwrap();
        live.retain(|h| *h != plan.stale);
        live.push(fresh);
        game.adopt(plan.id, fresh);
    }
    assert_eq!(game.entities.len(), 3);
    assert_eq!(game.entities.get(&0), Some(&201));
    assert_eq!(game.entities.get(&1), Some(&101));
    assert_eq!(game.entities.get(&2), Some(&102));
    live.sort();
    assert_eq!(live, vec![101, 102, 201]);
}

#[test]
fn redraw_may_get_the_released_handle_again() {
    let mut game = opened();
    let plan = game.draw(6, 6, 1).unwrap();
    assert_eq!(plan.stale, 101);
    game.adopt(plan.id, plan.stale);
    assert_eq!(game.entities.len(), 3);
    assert_eq!(game.draw(6, 6, 1).unwrap().stale, 101);
}

#[test]
fn tick_right_moves_the_player_and_redraws_it() {
    let mut game = opened();
    assert!(game.can_tick(KEY_RIGHT));
    let turn = game.tick(KEY_RIGHT);
    assert_eq!(turn.phase, Phase::Running);
    assert_eq!(game.player.pos, (5, 6));
    assert_eq!(game.player.dest, Dest::O);
    let expected = Frame {
        id: 0,
        status_line: 1,
        report: Report { pos: (5, 6), dmg: 2, hp: 20, dest: Some(Dest::O) },
        redraw: Some(Redraw {
            id: 0,
            stale: 100,
            panel: Panel { lines: 6, cols: 12, y: 5, x: 6 },
            arm: Some(Arm { y: 3, x: 11, glyph: 'O', text: true }),
        }),
    };
    assert_eq!(turn.frames[0], expected);
}

#[test]
fn tick_frames_every_entity_in_order() {
    let mut game = opened();
    let turn = game.tick(KEY_UP);
    assert_eq!(game.player.pos, (4, 5));
    assert_eq!(game.player.dest, Dest::N);
    assert_eq!(turn.frames.len(), 3);
    for (k, frame) in turn.frames.iter().enumerate() {
        assert_eq!(frame.id, k as i8);
        assert_eq!(frame.status_line, k as i32 + 1);
        let redraw = frame.redraw.unwrap();
        assert_eq!(redraw.id, k as i8);
        assert_eq!(redraw.stale, 100 + k);
        assert_eq!(redraw.arm.is_some(), k == 0);
        if k > 0 {
            let e = game.enemies[k - 1];
            let told = Report { pos: e.pos, dmg: 2, hp: 20, dest: None };
            assert_eq!(frame.report, told);
            let at = Panel { lines: 6, cols: 12, y: e.pos.0 as i32, x: e.pos.1 as i32 };
            assert_eq!(redraw.panel, at);
        }
    }
    assert_eq!(game.entities.len(), 3);
}

#[test]
fn tick_without_input_still_moves_the_enemies() {
    let mut game = opened();
    game.enemies[0] = Enemy { pos: (10, 10), dmg: 2, hp: 20 };
    game.enemies[1] = Enemy { pos: (35, 35), dmg: 2, hp: 20 };
    let turn = game.tick(-1);
    assert_eq!(turn.phase, Phase::Running);
    assert_eq!(game.player.pos, (5, 5));
    assert_eq!(game.player.dest, Dest::O);
    let a = game.enemies[0].pos;
    assert!((a.0 == 9 || a.0 == 11) && (a.1 == 9 || a.1 == 11));
    let b = game.enemies[1].pos;
    assert!((b.0 == 34 || b.0 == 35) && (b.1 == 34 || b.1 == 35));
}

#[test]
fn quit_ends_the_game_in_one_tick() {
    let mut game = opened();
    let before: Vec<(usize, usize)> = game.enemies.iter().map(|e| e.pos).collect();
    let turn = game.tick(KEY_F4);
    assert_eq!(turn.phase, Phase::Terminated);
    assert!(turn.frames.is_empty());
    assert_eq!(game.player.pos, (5, 5));
    let after: Vec<(usize, usize)> = game.enemies.iter().map(|e| e.pos).collect();
    assert_eq!(before, after);
    assert!(game.is_alive);
    assert_eq!(game.entities.len(), 3);
}

#[test]
fn a_dead_game_ends_after_its_tick() {
    let mut game = opened();
    game.is_alive = false;
    let turn = game.tick(KEY_DOWN);
    assert_eq!(turn.phase, Phase::Terminated);
    assert_eq!(game.player.pos, (6, 5));
    assert_eq!(turn.frames.len(), 3);
}

#[test]
fn enemies_stay_on_the_grid_tick_after_tick() {
    let mut game = opened();
    let keys = [KEY_RIGHT, -1, KEY_DOWN, KEY_LEFT, -1, KEY_UP];
    for round in 0..600 {
        let key = keys[round % keys.len()];
        assert!(game.can_tick(key));
        let turn = game.tick(key);
        assert_eq!(turn.phase, Phase::Running);
        for e in game.enemies.iter() {
            assert!(e.pos.0 <= 35 && e.pos.1 <= 35);
        }
        for frame in turn.frames.iter() {
            let redraw = frame.redraw.unwrap();
            game.adopt(redraw.id, redraw.stale + 3);
        }
    }
    assert_eq!(game.player.pos, (5, 5));
    assert_eq!(game.entities.len(), 3);
}

#[test]
fn can_tick_refuses_what_tick_cannot_take() {
    let mut game = opened();
    game.player.pos = (0, 0);
    assert!(!game.can_tick(KEY_LEFT));
    assert!(!game.can_tick(KEY_UP));
    assert!(game.can_tick(KEY_RIGHT));
    assert!(game.can_tick(KEY_F4));
    game.enemies[1].pos = (36, 4);
    assert!(game.can_tick(KEY_RIGHT));
    game.enemies[1].pos = (4, SCREEN_MAX);
    assert!(!game.can_tick(KEY_RIGHT));
    assert!(game.can_tick(KEY_F4));
    game.enemies[1].pos = (4, 4);
    game.player.pos = (SCREEN_MAX + 1, 4);
    assert!(!game.can_tick(-1));
    assert!(game.can_tick(KEY_UP));
}

#[test]
fn an_enemy_beyond_the_world_is_brought_back_by_its_step() {
    let mut game = opened();
    game.enemies[0].pos = (39, 49);
    let turn = game.tick(-1);
    assert_eq!(game.enemies[0].pos, (35, 35));
    let at = Panel { lines: 6, cols: 12, y: 35, x: 35 };
    assert_eq!(turn.frames[1].redraw.unwrap().panel, at);
}

#[test]
fn the_ids_reach_as_far_as_they_can() {
    let mut game = GameState::new(rand::thread_rng());
    while game.enemies.len() < ENEMIES_MAX {
        game.enemies.push(Enemy { pos: (3, 3), dmg: 2, hp: 20 });
    }
    let handles: Vec<usize> = (0..128).collect();
    game.install(&handles);
    assert!(game.can_tick(-1));
    let turn = game.tick(-1);
    assert_eq!(turn.frames.len(), 128);
    assert_eq!(turn.frames[127].id, 127);
    assert_eq!(turn.frames[127].status_line, 128);
    assert_eq!(turn.frames[127].redraw.unwrap().stale, 127);
    game.enemies.push(Enemy { pos: (3, 3), dmg: 2, hp: 20 });
    assert!(!game.can_tick(-1));
}
