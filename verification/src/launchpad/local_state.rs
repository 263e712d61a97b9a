//! The interface-local state: which scene is shown.

use vstd::prelude::*;

verus! {

/// The scenes the interface can show.
#[derive(Debug, Clone, Copy, PartialEq, Eq, Structural)]
pub enum Scene {
    Mining,
    BaseNode,
    Wallet,
}

/// The title each scene is shown under.
pub open spec fn scene_title(s: Scene) -> Seq<char> {
    match s {
        Scene::Mining => "Mining"@,
        Scene::BaseNode => "Base Node"@,
        Scene::Wallet => "Wallet"@,
    }
}

impl Scene {
    pub fn title(self) -> (r: &'static str)
        ensures
            r@ == scene_title(self),
    {
        match self {
            Scene::Mining => "Mining",
            Scene::BaseNode => "Base Node",
            Scene::Wallet => "Wallet",
        }
    }
}

impl Default for Scene {
    fn default() -> (r: Self)
        ensures
            r == Scene::BaseNode,
    {
        Scene::BaseNode
    }
}

/// The interface-local state.
#[derive(Debug)]
pub struct LocalState {
    pub scene: Scene,
}

impl Default for LocalState {
    fn default() -> (r: Self)
        ensures
            r.scene == Scene::BaseNode,
    {
        LocalState { scene: Scene::BaseNode }
    }
}

/// A change of the interface-local state.
#[derive(Debug, Clone)]
pub enum LocalStateDelta {
    SetScene(Scene),
}

impl LocalState {
    /// Applies one change: setting the scene replaces it.
    pub fn apply(&mut self, delta: LocalStateDelta)
        ensures
            match delta {
                LocalStateDelta::SetScene(scene) => final(self).scene == scene,
            },
    {
        match delta {
            LocalStateDelta::SetScene(scene) => {
                self.scene = scene;
            },
        }
    }
}

} // verus!
