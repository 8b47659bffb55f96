//! Actions that a screen controller hands back to the root loop, and the
//! transition from an action to the screen that should run next.

use vstd::prelude::*;

verus! {

/// Index of a level in the level list.
pub type LevelId = u16;

/// What a controller asks the root loop to do.
#[derive(Debug, Clone, PartialEq, Eq, Hash)]
pub enum ControllerAction {
    Exit,
    OpenEditor(Option<String>),
    LoadGame(LevelId),
    LoadTitleScreen,
}

/// The screen that the root loop dispatches after a controller hands back
/// `action`.
pub fn next_state(action: ControllerAction) -> (r: crate::GameState)
    ensures
        r == match action {
            ControllerAction::Exit => crate::GameState::Exit,
            ControllerAction::LoadTitleScreen => crate::GameState::Title,
            ControllerAction::LoadGame(id) => crate::GameState::Game(id),
            ControllerAction::OpenEditor(p) => crate::GameState::Editor(p),
        },
{
    match action {
        ControllerAction::Exit => crate::GameState::Exit,
        ControllerAction::LoadTitleScreen => crate::GameState::Title,
        ControllerAction::LoadGame(id) => crate::GameState::Game(id),
        ControllerAction::OpenEditor(p) => crate::GameState::Editor(p),
    }
}

} // verus!
