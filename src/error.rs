use vstd::prelude::*;

verus! {

/// Failures of the game's instructions. Every failure discards the whole
/// instruction: the caller's state is left as it was.
#[derive(Clone, Copy, Debug, PartialEq, Eq, Structural)]
pub enum HexoneError {
    /// A precondition was violated, an input was malformed, or checked
    /// arithmetic overflowed.
    Invalid,
    /// The caller is not the expected authority.
    Unauthorized,
    /// The caller is not a participant of the referenced game or tile.
    PlayerNotAuthorized,
    /// The caller's profile is not ready to join a game.
    PlayerNotReady,
    /// The game is not accepting players.
    GameNotWaiting,
    /// Every player slot of the game is taken.
    GameFull,
}

impl HexoneError {
    pub open spec fn message_spec(&self) -> Seq<char> {
        match self {
            HexoneError::Invalid => "Invalid state"@,
            HexoneError::Unauthorized => "Unauthorized access"@,
            HexoneError::PlayerNotAuthorized => "Player is not authorized"@,
            HexoneError::PlayerNotReady => "Player is not ready to join a game"@,
            HexoneError::GameNotWaiting => "Game is not in waiting state"@,
            HexoneError::GameFull => "Game is full"@,
        }
    }

    /// The human-readable message of the error.
    pub fn message(&self) -> (r: String)
        ensures
            r@ == self.message_spec(),
    {
        match self {
            HexoneError::Invalid => String::from_str("Invalid state"),
            HexoneError::Unauthorized => String::from_str("Unauthorized access"),
            HexoneError::PlayerNotAuthorized => String::from_str("Player is not authorized"),
            HexoneError::PlayerNotReady => String::from_str("Player is not ready to join a game"),
            HexoneError::GameNotWaiting => String::from_str("Game is not in waiting state"),
            HexoneError::GameFull => String::from_str("Game is full"),
        }
    }
}

} // verus!
