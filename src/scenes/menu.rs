use vstd::prelude::*;
use crate::keys::KeyCode;
use crate::scenes::game::GameScene;
use crate::scenes::{is_select, is_select_key, navigate, navigated, Scene};

verus! {

/// The title menu: a list of items, one highlighted. Choosing the first,
/// "Play", starts a round.
pub struct MenuScene {
    pub is_done: bool,
    pub selected_item_index: usize,
    pub menu_items: Vec<String>,
}

impl MenuScene {
    pub open spec fn wf(&self) -> bool {
        self.selected_item_index < self.menu_items@.len()
    }

    /// The menu as it first appears.
    pub open spec fn is_start(&self) -> bool {
        &&& !self.is_done
        &&& self.selected_item_index == 0
        &&& self.menu_items@.len() == 4
        &&& self.menu_items@[0]@ == "Play"@
        &&& self.menu_items@[1]@ == "Options"@
        &&& self.menu_items@[2]@ == "About"@
        &&& self.menu_items@[3]@ == "Exit"@
    }

    /// The menu after a key event.
    pub open spec fn after_input(self, key: KeyCode) -> MenuScene {
        MenuScene {
            is_done: self.is_done || (is_select_key(key) && self.selected_item_index == 0),
            selected_item_index: navigated(
                self.selected_item_index as int,
                self.menu_items@.len() as int,
                key,
            ) as usize,
            menu_items: self.menu_items,
        }
    }

    /// Whether `next` is what a frame of the menu returns: a fresh round
    /// once "Play" is chosen.
    pub open spec fn leads_to(&self, next: Option<Scene>) -> bool {
        if self.is_done {
            next == Some(Scene::Game(GameScene { fresh: true }))
        } else {
            next is None
        }
    }

    pub fn new() -> (r: MenuScene)
        ensures
            r.is_start(),
            r.wf(),
    {
        let mut menu_items: Vec<String> = Vec::new();
        menu_items.push(String::from_str("Play"));
        menu_items.push(String::from_str("Options"));
        menu_items.push(String::from_str("About"));
        menu_items.push(String::from_str("Exit"));
        MenuScene { is_done: false, selected_item_index: 0, menu_items }
    }

    pub fn input(&mut self, keycode: KeyCode, _pressed: bool, _repeat: bool)
        requires
            old(self).wf(),
        ensures
            *final(self) == old(self).after_input(keycode),
            final(self).wf(),
    {
        if is_select(keycode) {
            if self.selected_item_index == 0 {
                self.is_done = true;
            }
        } else {
            self.selected_item_index = navigate(
                self.selected_item_index,
                self.menu_items.len(),
                keycode,
            );
        }
    }

    /// The scene to switch to, if any. The gameplay state is not touched: the
    /// new round starts in the game scene.
    pub fn update(&self) -> (r: Option<Scene>)
        ensures
            self.leads_to(r),
            r matches Some(next) ==> next.wf(),
    {
        if self.is_done {
            Some(Scene::Game(GameScene::new()))
        } else {
            None
        }
    }
}

} // verus!
