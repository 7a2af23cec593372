use vstd::prelude::*;
use crate::keys::KeyCode;
use crate::scenes::end::EndScene;
use crate::scenes::Scene;
use crate::world::World;

verus! {

/// Play: the world is simulated frame by frame until a player wins. A game
/// scene entered from the menu or the end screen is `fresh`: its first frame
/// starts a new round.
pub struct GameScene {
    pub fresh: bool,
}

impl GameScene {
    /// The scene of a new round.
    pub fn new() -> (r: GameScene)
        ensures
            r == (GameScene { fresh: true }),
    {
        GameScene { fresh: true }
    }

    /// Whether a frame of play can take `before` to `after` and return
    /// `next`: a reset if the scene is fresh, then one `tick`, then one
    /// `check_score`; the end screen for the winner follows once there is one.
    pub open spec fn leads_to(
        &self,
        before: World,
        after: World,
        next: Option<Scene>,
        held: Seq<KeyCode>,
        width: int,
        height: int,
    ) -> bool {
        &&& exists|start: World, mid: World|
            {
                &&& if self.fresh {
                    World::restarted(before, start, width, height)
                } else {
                    start == before
                }
                &&& #[trigger] World::ticked(start, mid, held, height)
                &&& World::scored(mid, after, width, height)
            }
        &&& match next {
            Some(Scene::End(e)) => after.winner() matches Some(name) && e.is_start_for(name),
            Some(_) => false,
            None => after.winner() is None,
        }
    }

    /// Key events do not reach play: the paddles follow the keys held.
    pub fn input(&mut self, _keycode: KeyCode, _pressed: bool, _repeat: bool)
        ensures
            *final(self) == *old(self),
    {
    }

    /// Runs one frame of play on a screen `scr_width` by `scr_height` with the
    /// keys in `held` held down, and returns the end screen once a player has
    /// won.
    pub fn update(
        &mut self,
        world: &mut World,
        scr_width: i64,
        scr_height: i64,
        held: &Vec<KeyCode>,
    ) -> (r: Option<Scene>)
        requires
            scr_width > 0,
            scr_height > 0,
            old(world).ball.wf(),
            old(world).player_1.score < u64::MAX,
            old(world).player_2.score < u64::MAX,
        ensures
            old(self).leads_to(
                *old(world),
                *final(world),
                r,
                held@,
                scr_width as int,
                scr_height as int,
            ),
            !final(self).fresh,
            final(world).winner() matches Some(name) ==> r matches Some(Scene::End(e))
                && e.is_start_for(name),
            final(world).winner() is None ==> r is None,
            final(world).player_1.paddle.size.1 <= scr_height ==> final(world).player_1.paddle.size.1
                / 2 <= final(world).player_1.paddle.position.y <= scr_height
                - final(world).player_1.paddle.size.1 / 2,
            final(world).player_2.paddle.size.1 <= scr_height ==> final(world).player_2.paddle.size.1
                / 2 <= final(world).player_2.paddle.position.y <= scr_height
                - final(world).player_2.paddle.size.1 / 2,
            r matches Some(next) ==> next.wf(),
    {
        if self.fresh {
            world.reset(scr_width, scr_height);
            self.fresh = false;
        }
        let ghost start = *world;
        world.tick(held, scr_height);
        let ghost mid = *world;
        let outcome = world.check_score(scr_width, scr_height);
        assert(World::ticked(start, mid, held@, scr_height as int));
        assert(World::scored(mid, *world, scr_width as int, scr_height as int));
        match outcome {
            Some(winner) => Some(Scene::End(EndScene::new(winner))),
            None => None,
        }
    }
}

} // verus!
