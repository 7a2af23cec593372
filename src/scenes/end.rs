use vstd::prelude::*;
use crate::keys::KeyCode;
use crate::scenes::game::GameScene;
use crate::scenes::menu::MenuScene;
use crate::scenes::{is_select, is_select_key, navigate, navigated, Scene};

verus! {

/// The end screen: names the winner and offers "Retry", which starts a new
/// round, and "Main Menu".
pub struct EndScene {
    pub title_text: String,
    pub is_done: bool,
    pub is_retry: bool,
    pub selected_item_index: usize,
    pub menu_items: Vec<String>,
}

impl EndScene {
    pub open spec fn wf(&self) -> bool {
        self.selected_item_index < self.menu_items@.len()
    }

    /// The end screen as it first appears for `winner`.
    pub open spec fn is_start_for(&self, winner: Seq<char>) -> bool {
        &&& self.title_text@ == winner + " is the winner!"@
        &&& !self.is_done
        &&& !self.is_retry
        &&& self.selected_item_index == 0
        &&& self.menu_items@.len() == 2
        &&& self.menu_items@[0]@ == "Retry"@
        &&& self.menu_items@[1]@ == "Main Menu"@
    }

    /// The end screen after a key event.
    pub open spec fn after_input(self, key: KeyCode) -> EndScene {
        EndScene {
            title_text: self.title_text,
            is_done: self.is_done || (is_select_key(key) && self.selected_item_index != 0),
            is_retry: self.is_retry || (is_select_key(key) && self.selected_item_index == 0),
            selected_item_index: navigated(
                self.selected_item_index as int,
                self.menu_items@.len() as int,
                key,
            ) as usize,
            menu_items: self.menu_items,
        }
    }

    /// Whether `next` is what a frame of the end screen returns: "Main Menu"
    /// goes back to the menu, "Retry" to a fresh round.
    pub open spec fn leads_to(&self, next: Option<Scene>) -> bool {
        if self.is_done {
            next matches Some(Scene::Menu(m)) && m.is_start()
        } else if self.is_retry {
            next == Some(Scene::Game(GameScene { fresh: true }))
        } else {
            next is None
        }
    }

    pub fn new(winner: String) -> (r: EndScene)
        ensures
            r.is_start_for(winner@),
            r.wf(),
    {
        let title_text = winner.concat(" is the winner!");
        let mut menu_items: Vec<String> = Vec::new();
        menu_items.push(String::from_str("Retry"));
        menu_items.push(String::from_str("Main Menu"));
        EndScene {
            title_text,
            is_done: false,
            is_retry: false,
            selected_item_index: 0,
            menu_items,
        }
    }

    pub fn input(&mut self, keycode: KeyCode, _pressed: bool, _repeat: bool)
        requires
            old(self).wf(),
        ensures
            *final(self) == old(self).after_input(keycode),
            final(self).wf(),
    {
        if is_select(keycode) {
            if self.selected_item_index == 0 {
                self.is_retry = true;
            } else {
                self.is_done = true;
            }
        } else {
            self.selected_item_index = navigate(
                self.selected_item_index,
                self.menu_items.len(),
                keycode,
            );
        }
    }

    /// The scene to switch to, if any. The gameplay state is not touched: a
    /// new round starts in the game scene.
    pub fn update(&self) -> (r: Option<Scene>)
        ensures
            self.leads_to(r),
            r matches Some(next) ==> next.wf(),
    {
        if self.is_done {
            Some(Scene::Menu(MenuScene::new()))
        } else if self.is_retry {
            Some(Scene::Game(GameScene::new()))
        } else {
            None
        }
    }
}

} // verus!
