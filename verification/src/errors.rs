//! What each kind of record reports when an operation is refused.

use vstd::prelude::*;
use crate::name::NameError;

verus! {

/// Refusals of the portfolio operations.
#[derive(Debug, Clone, Copy, PartialEq, Eq, Structural)]
pub enum PortfolioError {
    InvalidNameFormat,
    NameTooLong,
    NotPortfolioOwner,
}

/// Refusals of the game operations.
#[derive(Debug, Clone, Copy, PartialEq, Eq, Structural)]
pub enum GameError {
    InvalidNameFormat,
    NameTooLong,
    NotGameOwner,
}

/// Refusals of the player operations.
#[derive(Debug, Clone, Copy, PartialEq, Eq, Structural)]
pub enum PlayerError {
    InvalidNameFormat,
    NameTooLong,
    NotPlayerOwner,
}

impl PortfolioError {
    /// The portfolio error that stands for a refused name.
    pub open spec fn of_name(e: NameError) -> PortfolioError {
        match e {
            NameError::InvalidNameFormat => PortfolioError::InvalidNameFormat,
            NameError::NameTooLong => PortfolioError::NameTooLong,
        }
    }

    /// Maps a refused name to the portfolio error of the same meaning.
    pub fn from_name_error(e: NameError) -> (r: PortfolioError)
        ensures
            r == Self::of_name(e),
    {
        match e {
            NameError::InvalidNameFormat => PortfolioError::InvalidNameFormat,
            NameError::NameTooLong => PortfolioError::NameTooLong,
        }
    }

    /// The text of `message`.
    pub open spec fn message_text(self) -> Seq<char> {
        match self {
            PortfolioError::InvalidNameFormat => "Name can only contain letters and numbers"@,
            PortfolioError::NameTooLong => "Name is too long, maximum length is 50 characters"@,
            PortfolioError::NotPortfolioOwner => "Only the portfolio owner can update this portfolio"@,
        }
    }

    /// The message shown to the caller.
    pub fn message(&self) -> (m: &'static str)
        ensures
            m@ == self.message_text(),
    {
        match self {
            PortfolioError::InvalidNameFormat => "Name can only contain letters and numbers",
            PortfolioError::NameTooLong => "Name is too long, maximum length is 50 characters",
            PortfolioError::NotPortfolioOwner => "Only the portfolio owner can update this portfolio",
        }
    }
}

impl GameError {
    /// The game error that stands for a refused name.
    pub open spec fn of_name(e: NameError) -> GameError {
        match e {
            NameError::InvalidNameFormat => GameError::InvalidNameFormat,
            NameError::NameTooLong => GameError::NameTooLong,
        }
    }

    /// Maps a refused name to the game error of the same meaning.
    pub fn from_name_error(e: NameError) -> (r: GameError)
        ensures
            r == Self::of_name(e),
    {
        match e {
            NameError::InvalidNameFormat => GameError::InvalidNameFormat,
            NameError::NameTooLong => GameError::NameTooLong,
        }
    }

    /// The text of `message`.
    pub open spec fn message_text(self) -> Seq<char> {
        match self {
            GameError::InvalidNameFormat => "Name can only contain letters and numbers"@,
            GameError::NameTooLong => "Name is too long, maximum length is 50 characters"@,
            GameError::NotGameOwner => "Only the game owner can update this game"@,
        }
    }

    /// The message shown to the caller.
    pub fn message(&self) -> (m: &'static str)
        ensures
            m@ == self.message_text(),
    {
        match self {
            GameError::InvalidNameFormat => "Name can only contain letters and numbers",
            GameError::NameTooLong => "Name is too long, maximum length is 50 characters",
            GameError::NotGameOwner => "Only the game owner can update this game",
        }
    }
}

impl PlayerError {
    /// The player error that stands for a refused name.
    pub open spec fn of_name(e: NameError) -> PlayerError {
        match e {
            NameError::InvalidNameFormat => PlayerError::InvalidNameFormat,
            NameError::NameTooLong => PlayerError::NameTooLong,
        }
    }

    /// Maps a refused name to the player error of the same meaning.
    pub fn from_name_error(e: NameError) -> (r: PlayerError)
        ensures
            r == Self::of_name(e),
    {
        match e {
            NameError::InvalidNameFormat => PlayerError::InvalidNameFormat,
            NameError::NameTooLong => PlayerError::NameTooLong,
        }
    }

    /// The text of `message`.
    pub open spec fn message_text(self) -> Seq<char> {
        match self {
            PlayerError::InvalidNameFormat => "Name can only contain letters and numbers"@,
            PlayerError::NameTooLong => "Name is too long, maximum length is 50 characters"@,
            PlayerError::NotPlayerOwner => "Only the player owner can update this player"@,
        }
    }

    /// The message shown to the caller.
    pub fn message(&self) -> (m: &'static str)
        ensures
            m@ == self.message_text(),
    {
        match self {
            PlayerError::InvalidNameFormat => "Name can only contain letters and numbers",
            PlayerError::NameTooLong => "Name is too long, maximum length is 50 characters",
            PlayerError::NotPlayerOwner => "Only the player owner can update this player",
        }
    }
}

} // verus!
