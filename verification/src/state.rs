//! The three records and their mathematical views.

use vstd::prelude::*;
use crate::constants::{NAME_LENGTH, PUBLIC_KEY_LENGTH};
use crate::identity::Identity;

verus! {

/// A portfolio as stored: name field, owner and five numbers.
#[derive(Debug, Clone, Copy, PartialEq, Eq)]
pub struct Portfolio {
    /// Name, zero-padded to 50 bytes.
    pub name: [u8; NAME_LENGTH],
    /// Owner of the portfolio.
    pub wallet_address: Identity,
    /// Number of different tokens held.
    pub nb_tokens: u32,
    /// Number of transactions made.
    pub nb_transactions: u32,
    /// Total number of tokens across all holdings.
    pub amount_total_tokens: u32,
    /// Total value in stablecoin.
    pub amount_total_value_stablecoin: u32,
    /// Creation date, a Unix timestamp cut to 32 bits.
    pub date_portfolio: i32,
}

/// A game as stored.
#[derive(Debug, Clone, Copy, PartialEq, Eq)]
pub struct Game {
    /// Name, zero-padded to 50 bytes.
    pub name: [u8; NAME_LENGTH],
    /// Owner of the game.
    pub wallet_address: Identity,
    /// Number of players allowed.
    pub total_max_players: u32,
    /// Creation date, a Unix timestamp cut to 32 bits.
    pub date_game: i32,
}

/// A player as stored.
#[derive(Debug, Clone, Copy, PartialEq, Eq)]
pub struct Player {
    /// Name, zero-padded to 50 bytes.
    pub name: [u8; NAME_LENGTH],
    /// Owner of the player record.
    pub wallet_address: Identity,
    /// Number of games played.
    pub nb_games: u32,
}

/// What a portfolio holds.
pub struct PortfolioView {
    pub name: Seq<u8>,
    pub owner: Seq<u8>,
    pub token_count: u32,
    pub transaction_count: u32,
    pub total_token_amount: u32,
    pub total_value_in_stablecoin: u32,
    pub creation_date: i32,
}

/// What a game holds.
pub struct GameView {
    pub name: Seq<u8>,
    pub owner: Seq<u8>,
    pub max_players: u32,
    pub creation_date: i32,
}

/// What a player record holds.
pub struct PlayerView {
    pub name: Seq<u8>,
    pub owner: Seq<u8>,
    pub games_played: u32,
}

/// Fifty zero bytes: the field of the empty name.
pub open spec fn empty_name() -> Seq<u8> {
    Seq::new(NAME_LENGTH as nat, |i: int| 0u8)
}

/// Thirty-two zero bytes: the identity that nobody holds.
pub open spec fn zero_identity() -> Seq<u8> {
    Seq::new(PUBLIC_KEY_LENGTH as nat, |i: int| 0u8)
}

impl View for Portfolio {
    type V = PortfolioView;

    open spec fn view(&self) -> PortfolioView {
        PortfolioView {
            name: self.name@,
            owner: self.wallet_address@,
            token_count: self.nb_tokens,
            transaction_count: self.nb_transactions,
            total_token_amount: self.amount_total_tokens,
            total_value_in_stablecoin: self.amount_total_value_stablecoin,
            creation_date: self.date_portfolio,
        }
    }
}

impl View for Game {
    type V = GameView;

    open spec fn view(&self) -> GameView {
        GameView {
            name: self.name@,
            owner: self.wallet_address@,
            max_players: self.total_max_players,
            creation_date: self.date_game,
        }
    }
}

impl View for Player {
    type V = PlayerView;

    open spec fn view(&self) -> PlayerView {
        PlayerView {
            name: self.name@,
            owner: self.wallet_address@,
            games_played: self.nb_games,
        }
    }
}

impl Default for Portfolio {
    /// The blank portfolio: empty name, zero owner, all numbers zero.
    fn default() -> (p: Portfolio)
        ensures
            p@ == (PortfolioView {
                name: empty_name(),
                owner: zero_identity(),
                token_count: 0,
                transaction_count: 0,
                total_token_amount: 0,
                total_value_in_stablecoin: 0,
                creation_date: 0,
            }),
    {
        let p = Portfolio {
            name: [0u8; NAME_LENGTH],
            wallet_address: Identity::default(),
            nb_tokens: 0,
            nb_transactions: 0,
            amount_total_tokens: 0,
            amount_total_value_stablecoin: 0,
            date_portfolio: 0,
        };
        assert(p.name@ =~= empty_name());
        p
    }
}

impl Default for Game {
    /// The blank game: empty name, zero owner, room for 100 players.
    fn default() -> (g: Game)
        ensures
            g@ == (GameView {
                name: empty_name(),
                owner: zero_identity(),
                max_players: 100,
                creation_date: 0,
            }),
    {
        let g = Game {
            name: [0u8; NAME_LENGTH],
            wallet_address: Identity::default(),
            total_max_players: 100,
            date_game: 0,
        };
        assert(g.name@ =~= empty_name());
        g
    }
}

impl Default for Player {
    /// The blank player: empty name, zero owner, no games played.
    fn default() -> (p: Player)
        ensures
            p@ == (PlayerView { name: empty_name(), owner: zero_identity(), games_played: 0 }),
    {
        let p = Player {
            name: [0u8; NAME_LENGTH],
            wallet_address: Identity::default(),
            nb_games: 0,
        };
        assert(p.name@ =~= empty_name());
        p
    }
}

} // verus!
