use vstd::prelude::*;

verus! {

/// The commands of a menu screen.
#[derive(Debug, Clone, Copy, PartialEq, Eq, Structural)]
pub enum MenuCommand {
    /// Select the item above.
    Up,
    /// Select the item below.
    Down,
    /// Confirm the selected item.
    Proceed,
    /// Go back to the enclosing menu.
    Back,
}

/// The commands of a player during a turn.
#[derive(Debug, Clone, Copy, PartialEq, Eq, Structural)]
pub enum GameCommand {
    /// Move the block one cell to the left.
    Left,
    /// Move the block one cell to the right.
    Right,
    /// Move the block one cell down, locking it where it cannot move.
    Down,
    /// Drop the block as far as it goes and lock it.
    Drop,
    /// Turn the block a quarter clockwise.
    RotateClockwise,
    /// Turn the block a quarter anticlockwise.
    RotateUnticlockwise,
    /// Exchange the block with the held one.
    Hold,
}

/// A key press, as far as the game reads it.
#[derive(Debug, Clone, Copy, PartialEq, Eq, Structural)]
pub enum Key {
    ArrowLeft,
    ArrowRight,
    ArrowUp,
    ArrowDown,
    Char(char),
    /// Any other key.
    Other,
}

/// The keys of a menu screen.
pub struct MenuInputMapper;

impl MenuInputMapper {
    /// `z` proceeds, `x` goes back, the up and down arrows move the selection.
    pub fn map(&self, key: Key) -> (r: Option<MenuCommand>)
        ensures
            key == Key::Char('z') ==> r == Some(MenuCommand::Proceed),
            key == Key::Char('x') ==> r == Some(MenuCommand::Back),
            key == Key::ArrowUp ==> r == Some(MenuCommand::Up),
            key == Key::ArrowDown ==> r == Some(MenuCommand::Down),
            !(key == Key::Char('z') || key == Key::Char('x') || key == Key::ArrowUp || key
                == Key::ArrowDown) ==> r is None,
    {
        match key {
            Key::Char('z') => Some(MenuCommand::Proceed),
            Key::Char('x') => Some(MenuCommand::Back),
            Key::ArrowUp => Some(MenuCommand::Up),
            Key::ArrowDown => Some(MenuCommand::Down),
            _ => None,
        }
    }
}

/// The keys of a one-player game.
pub struct SinglePlayerInputMapper;

impl SinglePlayerInputMapper {
    /// `z` and `x` turn the block anticlockwise and clockwise, `c` holds it; the left and
    /// right arrows move it, the down arrow moves it down and the up arrow drops it.
    pub fn map(&self, key: Key) -> (r: Option<GameCommand>)
        ensures
            key == Key::Char('z') ==> r == Some(GameCommand::RotateUnticlockwise),
            key == Key::Char('x') ==> r == Some(GameCommand::RotateClockwise),
            key == Key::Char('c') ==> r == Some(GameCommand::Hold),
            key == Key::ArrowLeft ==> r == Some(GameCommand::Left),
            key == Key::ArrowRight ==> r == Some(GameCommand::Right),
            key == Key::ArrowUp ==> r == Some(GameCommand::Drop),
            key == Key::ArrowDown ==> r == Some(GameCommand::Down),
            !(key == Key::Char('z') || key == Key::Char('x') || key == Key::Char('c') || key
                == Key::ArrowLeft || key == Key::ArrowRight || key == Key::ArrowUp || key
                == Key::ArrowDown) ==> r is None,
    {
        match key {
            Key::Char('z') => Some(GameCommand::RotateUnticlockwise),
            Key::Char('x') => Some(GameCommand::RotateClockwise),
            Key::Char('c') => Some(GameCommand::Hold),
            Key::ArrowLeft => Some(GameCommand::Left),
            Key::ArrowRight => Some(GameCommand::Right),
            Key::ArrowUp => Some(GameCommand::Drop),
            Key::ArrowDown => Some(GameCommand::Down),
            _ => None,
        }
    }
}

} // verus!
