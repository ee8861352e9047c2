//! The six record operations: creating and updating a portfolio, a game and a
//! player. Each checks everything before it writes anything, so a refused
//! operation leaves its accounts as they were.

use vstd::prelude::*;
use crate::errors::{GameError, PlayerError, PortfolioError};
use crate::identity::{authorize, Identity};
use crate::name::{encode_name, encode_spec};
use crate::state::{Game, GameView, Player, PlayerView, Portfolio, PortfolioView};

verus! {

/// Accounts of `initialize_portfolio`: the record to fill and the signer.
#[derive(Debug, Clone, Copy, PartialEq, Eq)]
pub struct InitializePortfolio {
    pub portfolio: Portfolio,
    pub user: Identity,
}

/// Accounts of `update_portfolio`: the record to change and the signer.
#[derive(Debug, Clone, Copy, PartialEq, Eq)]
pub struct UpdatePortfolio {
    pub portfolio: Portfolio,
    pub user: Identity,
}

/// Accounts of `initialize_game`: the record to fill and the signer.
#[derive(Debug, Clone, Copy, PartialEq, Eq)]
pub struct InitializeGame {
    pub game: Game,
    pub user: Identity,
}

/// Accounts of `update_game`: the record to change and the signer.
#[derive(Debug, Clone, Copy, PartialEq, Eq)]
pub struct UpdateGame {
    pub game: Game,
    pub user: Identity,
}

/// Accounts of `register_player`: the record to fill and the signer.
#[derive(Debug, Clone, Copy, PartialEq, Eq)]
pub struct RegisterPlayer {
    pub player: Player,
    pub user: Identity,
}

/// Accounts of `update_player`: the record to change and the signer.
#[derive(Debug, Clone, Copy, PartialEq, Eq)]
pub struct UpdatePlayer {
    pub player: Player,
    pub user: Identity,
}

/// A Unix timestamp cut to its low 32 bits, read as a signed number.
pub open spec fn truncated(unix_timestamp: i64) -> i32 {
    unix_timestamp as i32
}

/// Cuts the host's 64-bit clock reading to the 32 bits that a record stores.
pub fn truncate_timestamp(unix_timestamp: i64) -> (date: i32)
    ensures
        date == truncated(unix_timestamp),
        i32::MIN <= unix_timestamp <= i32::MAX ==> date == unix_timestamp,
{
    #[verifier::truncate]
    (unix_timestamp as i32)
}

/// The portfolio that `initialize_portfolio` writes, or its refusal.
pub open spec fn initialize_portfolio_spec(
    user: Seq<u8>,
    name: Seq<char>,
    unix_timestamp: i64,
) -> Result<PortfolioView, PortfolioError> {
    match encode_spec(name) {
        Ok(bytes) => Ok(
            PortfolioView {
                name: bytes,
                owner: user,
                token_count: 0,
                transaction_count: 0,
                total_token_amount: 0,
                total_value_in_stablecoin: 0,
                creation_date: truncated(unix_timestamp),
            },
        ),
        Err(e) => Err(PortfolioError::of_name(e)),
    }
}

/// The portfolio that `update_portfolio` writes, or its refusal. Ownership is
/// tested before the name.
pub open spec fn update_portfolio_spec(
    owner: Seq<u8>,
    user: Seq<u8>,
    new_name: Seq<char>,
    nb_tokens: u32,
    nb_transactions: u32,
    amount_total_tokens: u32,
    amount_total_value_stablecoin: u32,
    date_portfolio: i32,
) -> Result<PortfolioView, PortfolioError> {
    if owner != user {
        Err(PortfolioError::NotPortfolioOwner)
    } else {
        match encode_spec(new_name) {
            Ok(bytes) => Ok(
                PortfolioView {
                    name: bytes,
                    owner: user,
                    token_count: nb_tokens,
                    transaction_count: nb_transactions,
                    total_token_amount: amount_total_tokens,
                    total_value_in_stablecoin: amount_total_value_stablecoin,
                    creation_date: date_portfolio,
                },
            ),
            Err(e) => Err(PortfolioError::of_name(e)),
        }
    }
}

/// The game that `initialize_game` writes, or its refusal.
pub open spec fn initialize_game_spec(user: Seq<u8>, name: Seq<char>, unix_timestamp: i64) -> Result<
    GameView,
    GameError,
> {
    match encode_spec(name) {
        Ok(bytes) => Ok(
            GameView {
                name: bytes,
                owner: user,
                max_players: 0,
                creation_date: truncated(unix_timestamp),
            },
        ),
        Err(e) => Err(GameError::of_name(e)),
    }
}

/// The game that `update_game` writes, or its refusal. The new owner is the
/// identity handed in, whoever it is.
pub open spec fn update_game_spec(
    owner: Seq<u8>,
    user: Seq<u8>,
    new_name: Seq<char>,
    wallet_address: Seq<u8>,
    total_max_players: u32,
    date_game: i32,
) -> Result<GameView, GameError> {
    if owner != user {
        Err(GameError::NotGameOwner)
    } else {
        match encode_spec(new_name) {
            Ok(bytes) => Ok(
                GameView {
                    name: bytes,
                    owner: wallet_address,
                    max_players: total_max_players,
                    creation_date: date_game,
                },
            ),
            Err(e) => Err(GameError::of_name(e)),
        }
    }
}

/// The player that `register_player` writes, or its refusal.
pub open spec fn register_player_spec(user: Seq<u8>, name: Seq<char>) -> Result<PlayerView, PlayerError> {
    match encode_spec(name) {
        Ok(bytes) => Ok(PlayerView { name: bytes, owner: user, games_played: 0 }),
        Err(e) => Err(PlayerError::of_name(e)),
    }
}

/// The player that `update_player` writes, or its refusal.
pub open spec fn update_player_spec(
    owner: Seq<u8>,
    user: Seq<u8>,
    new_name: Seq<char>,
    nb_games: u32,
) -> Result<PlayerView, PlayerError> {
    if owner != user {
        Err(PlayerError::NotPlayerOwner)
    } else {
        match encode_spec(new_name) {
            Ok(bytes) => Ok(PlayerView { name: bytes, owner: user, games_played: nb_games }),
            Err(e) => Err(PlayerError::of_name(e)),
        }
    }
}

/// Fills a new portfolio: the signer becomes its owner, the counters start at
/// zero, and the creation date is the clock reading cut to 32 bits. A refused
/// name leaves the accounts untouched.
pub fn initialize_portfolio(ctx: &mut InitializePortfolio, name: String, unix_timestamp: i64) -> (r: Result<
    (),
    PortfolioError,
>)
    ensures
        final(ctx).user == old(ctx).user,
        match initialize_portfolio_spec(old(ctx).user@, name@, unix_timestamp) {
            Ok(record) => r is Ok && final(ctx).portfolio@ == record,
            Err(e) => r == Err::<(), PortfolioError>(e) && *final(ctx) == *old(ctx),
        },
{
    let name_bytes = match encode_name(name.as_str()) {
        Ok(bytes) => bytes,
        Err(e) => {
            return Err(PortfolioError::from_name_error(e));
        },
    };
    ctx.portfolio.name = name_bytes;
    ctx.portfolio.wallet_address = ctx.user;
    ctx.portfolio.nb_tokens = 0;
    ctx.portfolio.nb_transactions = 0;
    ctx.portfolio.amount_total_tokens = 0;
    ctx.portfolio.amount_total_value_stablecoin = 0;
    ctx.portfolio.date_portfolio = truncate_timestamp(unix_timestamp);
    Ok(())
}

/// Rewrites a portfolio on behalf of its owner. A signer who is not the owner
/// is refused before the name is looked at; a refused name comes next; only
/// then are all fields written, the owner being the signer again.
pub fn update_portfolio(
    ctx: &mut UpdatePortfolio,
    new_name: String,
    nb_tokens: u32,
    nb_transactions: u32,
    amount_total_tokens: u32,
    amount_total_value_stablecoin: u32,
    date_portfolio: i32,
) -> (r: Result<(), PortfolioError>)
    ensures
        final(ctx).user == old(ctx).user,
        match update_portfolio_spec(
            old(ctx).portfolio.wallet_address@,
            old(ctx).user@,
            new_name@,
            nb_tokens,
            nb_transactions,
            amount_total_tokens,
            amount_total_value_stablecoin,
            date_portfolio,
        ) {
            Ok(record) => r is Ok && final(ctx).portfolio@ == record,
            Err(e) => r == Err::<(), PortfolioError>(e) && *final(ctx) == *old(ctx),
        },
        old(ctx).portfolio.wallet_address@ != old(ctx).user@ ==> r == Err::<(), PortfolioError>(
            PortfolioError::NotPortfolioOwner,
        ) && *final(ctx) == *old(ctx),
        old(ctx).portfolio.wallet_address@ == old(ctx).user@ && encode_spec(new_name@) is Ok ==> r is Ok
            && final(ctx).portfolio.name@ == encode_spec(new_name@)->Ok_0
            && final(ctx).portfolio.wallet_address@ == old(ctx).user@
            && final(ctx).portfolio.nb_tokens == nb_tokens
            && final(ctx).portfolio.nb_transactions == nb_transactions
            && final(ctx).portfolio.amount_total_tokens == amount_total_tokens
            && final(ctx).portfolio.amount_total_value_stablecoin == amount_total_value_stablecoin
            && final(ctx).portfolio.date_portfolio == date_portfolio,
{
    if authorize(&ctx.portfolio.wallet_address, &ctx.user).is_err() {
        return Err(PortfolioError::NotPortfolioOwner);
    }
    let name_bytes = match encode_name(new_name.as_str()) {
        Ok(bytes) => bytes,
        Err(e) => {
            return Err(PortfolioError::from_name_error(e));
        },
    };
    ctx.portfolio.name = name_bytes;
    ctx.portfolio.wallet_address = ctx.user;
    ctx.portfolio.nb_tokens = nb_tokens;
    ctx.portfolio.nb_transactions = nb_transactions;
    ctx.portfolio.amount_total_tokens = amount_total_tokens;
    ctx.portfolio.amount_total_value_stablecoin = amount_total_value_stablecoin;
    ctx.portfolio.date_portfolio = date_portfolio;
    Ok(())
}

/// Fills a new game: the signer becomes its owner, no players are allowed yet,
/// and the creation date is the clock reading cut to 32 bits. A refused name
/// leaves the accounts untouched.
pub fn initialize_game(ctx: &mut InitializeGame, name: String, unix_timestamp: i64) -> (r: Result<(), GameError>)
    ensures
        final(ctx).user == old(ctx).user,
        match initialize_game_spec(old(ctx).user@, name@, unix_timestamp) {
            Ok(record) => r is Ok && final(ctx).game@ == record,
            Err(e) => r == Err::<(), GameError>(e) && *final(ctx) == *old(ctx),
        },
{
    let name_bytes = match encode_name(name.as_str()) {
        Ok(bytes) => bytes,
        Err(e) => {
            return Err(GameError::from_name_error(e));
        },
    };
    ctx.game.name = name_bytes;
    ctx.game.wallet_address = ctx.user;
    ctx.game.total_max_players = 0;
    ctx.game.date_game = truncate_timestamp(unix_timestamp);
    Ok(())
}

/// Rewrites a game on behalf of its owner, and hands it to `wallet_address`. A
/// signer who is not the owner is refused before the name is looked at; a
/// refused name comes next; only then are all fields written.
pub fn update_game(
    ctx: &mut UpdateGame,
    new_name: String,
    wallet_address: Identity,
    total_max_players: u32,
    date_game: i32,
) -> (r: Result<(), GameError>)
    ensures
        final(ctx).user == old(ctx).user,
        match update_game_spec(
            old(ctx).game.wallet_address@,
            old(ctx).user@,
            new_name@,
            wallet_address@,
            total_max_players,
            date_game,
        ) {
            Ok(record) => r is Ok && final(ctx).game@ == record,
            Err(e) => r == Err::<(), GameError>(e) && *final(ctx) == *old(ctx),
        },
        old(ctx).game.wallet_address@ != old(ctx).user@ ==> r == Err::<(), GameError>(
            GameError::NotGameOwner,
        ) && *final(ctx) == *old(ctx),
        old(ctx).game.wallet_address@ == old(ctx).user@ && encode_spec(new_name@) is Ok ==> r is Ok
            && final(ctx).game.name@ == encode_spec(new_name@)->Ok_0
            && final(ctx).game.wallet_address@ == wallet_address@
            && final(ctx).game.total_max_players == total_max_players
            && final(ctx).game.date_game == date_game,
{
    if authorize(&ctx.game.wallet_address, &ctx.user).is_err() {
        return Err(GameError::NotGameOwner);
    }
    let name_bytes = match encode_name(new_name.as_str()) {
        Ok(bytes) => bytes,
        Err(e) => {
            return Err(GameError::from_name_error(e));
        },
    };
    ctx.game.name = name_bytes;
    ctx.game.wallet_address = wallet_address;
    ctx.game.total_max_players = total_max_players;
    ctx.game.date_game = date_game;
    Ok(())
}

/// Fills a new player record: the signer becomes its owner and no games have
/// been played. A refused name leaves the accounts untouched.
pub fn register_player(ctx: &mut RegisterPlayer, name: String) -> (r: Result<(), PlayerError>)
    ensures
        final(ctx).user == old(ctx).user,
        match register_player_spec(old(ctx).user@, name@) {
            Ok(record) => r is Ok && final(ctx).player@ == record,
            Err(e) => r == Err::<(), PlayerError>(e) && *final(ctx) == *old(ctx),
        },
{
    let name_bytes = match encode_name(name.as_str()) {
        Ok(bytes) => bytes,
        Err(e) => {
            return Err(PlayerError::from_name_error(e));
        },
    };
    ctx.player.name = name_bytes;
    ctx.player.wallet_address = ctx.user;
    ctx.player.nb_games = 0;
    Ok(())
}

/// Rewrites a player record on behalf of its owner. A signer who is not the
/// owner is refused before the name is looked at; a refused name comes next;
/// only then are all fields written, the owner being the signer again.
pub fn update_player(ctx: &mut UpdatePlayer, new_name: String, nb_games: u32) -> (r: Result<(), PlayerError>)
    ensures
        final(ctx).user == old(ctx).user,
        match update_player_spec(old(ctx).player.wallet_address@, old(ctx).user@, new_name@, nb_games) {
            Ok(record) => r is Ok && final(ctx).player@ == record,
            Err(e) => r == Err::<(), PlayerError>(e) && *final(ctx) == *old(ctx),
        },
        old(ctx).player.wallet_address@ != old(ctx).user@ ==> r == Err::<(), PlayerError>(
            PlayerError::NotPlayerOwner,
        ) && *final(ctx) == *old(ctx),
        old(ctx).player.wallet_address@ == old(ctx).user@ && encode_spec(new_name@) is Ok ==> r is Ok
            && final(ctx).player.name@ == encode_spec(new_name@)->Ok_0
            && final(ctx).player.wallet_address@ == old(ctx).user@
            && final(ctx).player.nb_games == nb_games,
{
    if authorize(&ctx.player.wallet_address, &ctx.user).is_err() {
        return Err(PlayerError::NotPlayerOwner);
    }
    let name_bytes = match encode_name(new_name.as_str()) {
        Ok(bytes) => bytes,
        Err(e) => {
            return Err(PlayerError::from_name_error(e));
        },
    };
    ctx.player.name = name_bytes;
    ctx.player.wallet_address = ctx.user;
    ctx.player.nb_games = nb_games;
    Ok(())
}

} // verus!
