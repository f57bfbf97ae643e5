//! A saved game.
use vstd::prelude::*;
use crate::ids::SceneID;
use crate::id_realm::RealmId;

verus! {

/// Where the player is, and what they have done.
#[derive(Debug, Copy, Clone, Hash, PartialEq, Eq, Structural)]
pub struct Save {
    pub scene_id: SceneID,
    pub has_unlocked_door: bool,
}

impl Default for Save {
    /// The first scene, with the door still locked.
    fn default() -> (r: Save)
        ensures
            r.scene_id.raw() == 0,
            !r.has_unlocked_door,
    {
        Save { scene_id: SceneID::from_raw(0), has_unlocked_door: false }
    }
}

} // verus!
