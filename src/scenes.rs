//! The scene machine: the menu, the game and the end screen. A frame driver
//! holds one `Scene` and one `World`, hands the scene the frame's key events
//! and then calls `update`, and puts the returned scene, if any, in place of
//! the old one.

pub mod end;
pub mod game;
pub mod menu;

use vstd::prelude::*;
use crate::keys::KeyCode;
use crate::world::World;
use end::EndScene;
use game::GameScene;
use menu::MenuScene;

verus! {

/// Keys that choose the highlighted item.
pub open spec fn is_select_key(key: KeyCode) -> bool {
    key == KeyCode::Space || key == KeyCode::Return || key == KeyCode::D || key == KeyCode::Right
}

/// Keys that move the highlight up.
pub open spec fn is_up_key(key: KeyCode) -> bool {
    key == KeyCode::Up || key == KeyCode::W
}

/// Keys that move the highlight down.
pub open spec fn is_down_key(key: KeyCode) -> bool {
    key == KeyCode::Down || key == KeyCode::S
}

/// The highlighted item of a list of `count` after `key`: up from the first
/// item wraps to the last, down from the last wraps to the first.
pub open spec fn navigated(index: int, count: int, key: KeyCode) -> int {
    if is_up_key(key) {
        if index == 0 {
            count - 1
        } else {
            index - 1
        }
    } else if is_down_key(key) {
        (index + 1) % count
    } else {
        index
    }
}

pub fn is_select(key: KeyCode) -> (r: bool)
    ensures
        r == is_select_key(key),
{
    match key {
        KeyCode::Space | KeyCode::Return | KeyCode::D | KeyCode::Right => true,
        _ => false,
    }
}

/// Moves the highlight of a list of `count` items by `key`.
pub fn navigate(index: usize, count: usize, key: KeyCode) -> (r: usize)
    requires
        index < count,
    ensures
        r == navigated(index as int, count as int, key),
        r < count,
{
    match key {
        KeyCode::Up | KeyCode::W => {
            if index == 0 {
                count - 1
            } else {
                index - 1
            }
        },
        KeyCode::Down | KeyCode::S => (index + 1) % count,
        _ => index,
    }
}

/// The active mode of the game.
pub enum Scene {
    Menu(MenuScene),
    Game(GameScene),
    End(EndScene),
}

impl Scene {
    pub open spec fn wf(&self) -> bool {
        match self {
            Scene::Menu(m) => m.wf(),
            Scene::Game(_) => true,
            Scene::End(e) => e.wf(),
        }
    }

    /// The scene after a key event.
    pub open spec fn after_input(self, key: KeyCode) -> Scene {
        match self {
            Scene::Menu(m) => Scene::Menu(m.after_input(key)),
            Scene::Game(g) => Scene::Game(g),
            Scene::End(e) => Scene::End(e.after_input(key)),
        }
    }

    /// Hands a key event to the scene. Only the scene's own selection state
    /// changes.
    pub fn input(&mut self, keycode: KeyCode, pressed: bool, repeat: bool)
        requires
            old(self).wf(),
        ensures
            *final(self) == old(self).after_input(keycode),
            final(self).wf(),
    {
        match self {
            Scene::Menu(m) => m.input(keycode, pressed, repeat),
            Scene::Game(g) => g.input(keycode, pressed, repeat),
            Scene::End(e) => e.input(keycode, pressed, repeat),
        }
    }

    /// Runs the scene for one frame on a screen `scr_width` by `scr_height`
    /// with the keys in `held` held down, and returns the scene to switch to,
    /// if any. Only the game scene changes the world.
    pub fn update(
        &mut self,
        world: &mut World,
        scr_width: i64,
        scr_height: i64,
        held: &Vec<KeyCode>,
    ) -> (r: Option<Scene>)
        requires
            scr_width > 0,
            scr_height > 0,
            *old(self) is Game ==> {
                &&& old(world).ball.wf()
                &&& old(world).player_1.score < u64::MAX
                &&& old(world).player_2.score < u64::MAX
            },
        ensures
            match *old(self) {
                Scene::Menu(m) => {
                    &&& m.leads_to(r)
                    &&& *final(world) == *old(world)
                    &&& *final(self) == *old(self)
                },
                Scene::Game(g) => {
                    &&& g.leads_to(
                        *old(world),
                        *final(world),
                        r,
                        held@,
                        scr_width as int,
                        scr_height as int,
                    )
                    &&& *final(self) == Scene::Game(GameScene { fresh: false })
                },
                Scene::End(e) => {
                    &&& e.leads_to(r)
                    &&& *final(world) == *old(world)
                    &&& *final(self) == *old(self)
                },
            },
            r matches Some(next) ==> next.wf(),
    {
        match self {
            Scene::Menu(m) => m.update(),
            Scene::Game(g) => g.update(world, scr_width, scr_height, held),
            Scene::End(e) => e.update(),
        }
    }

    pub fn name(&self) -> (r: &'static str)
        ensures
            r@ == match *self {
                Scene::Menu(_) => "Menu Scene"@,
                Scene::Game(_) => "Game Scene"@,
                Scene::End(_) => "End Scene"@,
            },
    {
        match self {
            Scene::Menu(_) => "Menu Scene",
            Scene::Game(_) => "Game Scene",
            Scene::End(_) => "End Scene",
        }
    }
}

} // verus!
