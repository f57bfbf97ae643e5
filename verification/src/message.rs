//! Messages that systems send each other, and the mode the game is in.
use vstd::prelude::*;

verus! {

/// A notification from one system to all of them.
#[derive(Debug, Copy, Clone, PartialEq, Eq, Structural)]
pub enum Message {
    EnterEditor,
    LeaveEditor,
    EnterGameplay,
    LeaveGameplay,
}

/// Whether the player is editing shapes or playing.
#[derive(Debug, Copy, Clone, Hash, PartialEq, Eq, Structural)]
pub enum GameMode {
    Editor,
    Gameplay,
}

} // verus!
