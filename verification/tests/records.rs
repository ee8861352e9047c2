use portfolio_program::constants::{
    DISCRIMINATOR_LENGTH, GAME_SIZE, INT_LENGTH, NAME_LENGTH, PLAYER_SIZE, PORTFOLIO_SIZE,
    PUBLIC_KEY_LENGTH, U32_LENGTH,
};
use portfolio_program::errors::{GameError, PlayerError, PortfolioError};
use portfolio_program::identity::{authorize, Identity, NotOwner};
use portfolio_program::instructions::{
    initialize_game, initialize_portfolio, register_player, truncate_timestamp, update_game,
    update_player, update_portfolio, InitializeGame, InitializePortfolio, RegisterPlayer,
    UpdateGame, UpdatePlayer, UpdatePortfolio,
};
use portfolio_program::name::NameError;
use portfolio_program::state::{Game, Player, Portfolio};

fn alice() -> Identity {
    Identity::new([7u8; 32])
}

fn bob() -> Identity {
    let mut bytes = [7u8; 32];
    bytes[31] = 8;
    Identity::new(bytes)
}

fn padded(text: &str) -> [u8; NAME_LENGTH] {
    let mut buf = [0u8; NAME_LENGTH];
    buf[..text.len()].copy_from_slice(text.as_bytes());
    buf
}

fn portfolio_of(owner: Identity) -> Portfolio {
    Portfolio {
        name: padded("Old"),
        wallet_address: owner,
        nb_tokens: 1,
        nb_transactions: 2,
        amount_total_tokens: 3,
        amount_total_value_stablecoin: 4,
        date_portfolio: 5,
    }
}

#[test]
fn sizes_add_up() {
    assert_eq!(NAME_LENGTH, 50);
    assert_eq!(DISCRIMINATOR_LENGTH, 8);
    assert_eq!(PUBLIC_KEY_LENGTH, 32);
    assert_eq!(U32_LENGTH, 4);
    assert_eq!(INT_LENGTH, 4);
    assert_eq!(PORTFOLIO_SIZE, 110);
    assert_eq!(GAME_SIZE, 66);
    assert_eq!(PLAYER_SIZE, 90);
}

#[test]
fn identities_compare_by_bytes() {
    assert_eq!(alice(), Identity::new([7u8; 32]));
    assert_ne!(alice(), bob());
    assert_eq!(Identity::default(), Identity::new([0u8; 32]));
    let mut first = [0u8; 32];
    first[0] = 1;
    assert_ne!(Identity::new(first), Identity::default());
}

#[test]
fn gate_passes_only_the_owner() {
    assert_eq!(authorize(&alice(), &alice()), Ok(()));
    assert_eq!(authorize(&alice(), &bob()), Err(NotOwner));
    assert_eq!(authorize(&bob(), &alice()), Err(NotOwner));
}

#[test]
fn blank_records() {
    let p = Portfolio::default();
    assert_eq!(p.name, [0u8; 50]);
    assert_eq!(p.wallet_address, Identity::default());
    assert_eq!(
        (p.nb_tokens, p.nb_transactions, p.amount_total_tokens, p.amount_total_value_stablecoin, p.date_portfolio),
        (0, 0, 0, 0, 0)
    );
    let g = Game::default();
    assert_eq!(g.name, [0u8; 50]);
    assert_eq!(g.wallet_address, Identity::default());
    assert_eq!(g.total_max_players, 100);
    assert_eq!(g.date_game, 0);
    let pl = Player::default();
    assert_eq!(pl.name, [0u8; 50]);
    assert_eq!(pl.wallet_address, Identity::default());
    assert_eq!(pl.nb_games, 0);
}

#[test]
fn timestamp_keeps_low_32_bits() {
    assert_eq!(truncate_timestamp(1_700_000_000), 1_700_000_000);
    assert_eq!(truncate_timestamp(0), 0);
    assert_eq!(truncate_timestamp(-1), -1);
    assert_eq!(truncate_timestamp(2_147_483_647), i32::MAX);
    assert_eq!(truncate_timestamp(2_147_483_648), i32::MIN);
    assert_eq!(truncate_timestamp(4_294_967_296 + 5), 5);
    assert_eq!(truncate_timestamp(i64::MIN), 0);
}

#[test]
fn initialize_portfolio_writes_a_fresh_record() {
    let mut ctx = InitializePortfolio { portfolio: portfolio_of(bob()), user: alice() };
    let r = initialize_portfolio(&mut ctx, "Alice1".to_string(), 1_700_000_123);
    assert_eq!(r, Ok(()));
    let mut expected_name = [0u8; 50];
    expected_name[..6].copy_from_slice(b"Alice1");
    assert_eq!(ctx.portfolio.name, expected_name);
    assert_eq!(&ctx.portfolio.name[6..], &[0u8; 44][..]);
    assert_eq!(ctx.portfolio.wallet_address, alice());
    assert_eq!(ctx.portfolio.nb_tokens, 0);
    assert_eq!(ctx.portfolio.nb_transactions, 0);
    assert_eq!(ctx.portfolio.amount_total_tokens, 0);
    assert_eq!(ctx.portfolio.amount_total_value_stablecoin, 0);
    assert_eq!(ctx.portfolio.date_portfolio, 1_700_000_123);
    assert_eq!(ctx.user, alice());
}

#[test]
fn initialize_portfolio_refuses_bad_names() {
    let start = InitializePortfolio { portfolio: Portfolio::default(), user: alice() };
    let mut ctx = start;
    assert_eq!(
        initialize_portfolio(&mut ctx, "no way".to_string(), 9),
        Err(PortfolioError::InvalidNameFormat)
    );
    assert_eq!(ctx, start);
    assert_eq!(
        initialize_portfolio(&mut ctx, "x".repeat(51), 9),
        Err(PortfolioError::NameTooLong)
    );
    assert_eq!(ctx, start);
}

#[test]
fn update_portfolio_by_owner_writes_every_field() {
    let mut ctx = UpdatePortfolio { portfolio: portfolio_of(alice()), user: alice() };
    let r = update_portfolio(&mut ctx, "Bob".to_string(), 5, 2, 100, 250, 1_700_000_000);
    assert_eq!(r, Ok(()));
    assert_eq!(ctx.portfolio.name, padded("Bob"));
    assert_eq!(ctx.portfolio.wallet_address, alice());
    assert_eq!(ctx.portfolio.nb_tokens, 5);
    assert_eq!(ctx.portfolio.nb_transactions, 2);
    assert_eq!(ctx.portfolio.amount_total_tokens, 100);
    assert_eq!(ctx.portfolio.amount_total_value_stablecoin, 250);
    assert_eq!(ctx.portfolio.date_portfolio, 1_700_000_000);
}

#[test]
fn update_portfolio_by_stranger_changes_nothing() {
    let start = UpdatePortfolio { portfolio: portfolio_of(alice()), user: bob() };
    let mut ctx = start;
    let r = update_portfolio(&mut ctx, "Bob".to_string(), 5, 2, 100, 250, 1_700_000_000);
    assert_eq!(r, Err(PortfolioError::NotPortfolioOwner));
    assert_eq!(ctx, start);
}

#[test]
fn update_portfolio_checks_owner_before_name() {
    let start = UpdatePortfolio { portfolio: portfolio_of(alice()), user: bob() };
    let mut ctx = start;
    let r = update_portfolio(&mut ctx, "not valid".to_string(), 0, 0, 0, 0, 0);
    assert_eq!(r, Err(PortfolioError::NotPortfolioOwner));
    assert_eq!(ctx, start);
}

#[test]
fn update_portfolio_with_bad_name_changes_nothing() {
    let start = UpdatePortfolio { portfolio: portfolio_of(alice()), user: alice() };
    let mut ctx = start;
    assert_eq!(
        update_portfolio(&mut ctx, "A B".to_string(), 5, 2, 100, 250, 1),
        Err(PortfolioError::InvalidNameFormat)
    );
    assert_eq!(ctx, start);
    assert_eq!(
        update_portfolio(&mut ctx, "b".repeat(51), 5, 2, 100, 250, 1),
        Err(PortfolioError::NameTooLong)
    );
    assert_eq!(ctx, start);
}

#[test]
fn update_portfolio_keeps_extreme_numbers() {
    let mut ctx = UpdatePortfolio { portfolio: portfolio_of(alice()), user: alice() };
    let r = update_portfolio(&mut ctx, String::new(), u32::MAX, 0, u32::MAX, 1, i32::MIN);
    assert_eq!(r, Ok(()));
    assert_eq!(ctx.portfolio.name, [0u8; 50]);
    assert_eq!(ctx.portfolio.nb_tokens, u32::MAX);
    assert_eq!(ctx.portfolio.nb_transactions, 0);
    assert_eq!(ctx.portfolio.amount_total_tokens, u32::MAX);
    assert_eq!(ctx.portfolio.amount_total_value_stablecoin, 1);
    assert_eq!(ctx.portfolio.date_portfolio, i32::MIN);
}

#[test]
fn initialize_game_starts_without_players() {
    let mut ctx = InitializeGame { game: Game::default(), user: alice() };
    assert_eq!(initialize_game(&mut ctx, "Chess960".to_string(), 4_294_967_296 + 77), Ok(()));
    assert_eq!(ctx.game.name, padded("Chess960"));
    assert_eq!(ctx.game.wallet_address, alice());
    assert_eq!(ctx.game.total_max_players, 0);
    assert_eq!(ctx.game.date_game, 77);
}

#[test]
fn initialize_game_refuses_long_name() {
    let start = InitializeGame { game: Game::default(), user: alice() };
    let mut ctx = start;
    let name = "abcdefghijklmnopqrstuvwxyzabcdefghijklmnopqrstuvwxy".to_string();
    assert_eq!(name.len(), 51);
    assert_eq!(initialize_game(&mut ctx, name, 1), Err(GameError::NameTooLong));
    assert_eq!(ctx, start);
    assert_eq!(initialize_game(&mut ctx, "a/b".to_string(), 1), Err(GameError::InvalidNameFormat));
    assert_eq!(ctx, start);
}

#[test]
fn update_game_hands_the_game_over() {
    let mut game = Game::default();
    game.wallet_address = alice();
    let mut ctx = UpdateGame { game, user: alice() };
    assert_eq!(update_game(&mut ctx, "Go".to_string(), bob(), 4, -3), Ok(()));
    assert_eq!(ctx.game.name, padded("Go"));
    assert_eq!(ctx.game.wallet_address, bob());
    assert_eq!(ctx.game.total_max_players, 4);
    assert_eq!(ctx.game.date_game, -3);
    let after = ctx;
    assert_eq!(update_game(&mut ctx, "Go2".to_string(), alice(), 5, 0), Err(GameError::NotGameOwner));
    assert_eq!(ctx, after);
}

#[test]
fn update_game_refusals_change_nothing() {
    let mut game = Game::default();
    game.wallet_address = alice();
    let start = UpdateGame { game, user: alice() };
    let mut ctx = start;
    assert_eq!(update_game(&mut ctx, "G o".to_string(), bob(), 4, 1), Err(GameError::InvalidNameFormat));
    assert_eq!(ctx, start);
    assert_eq!(update_game(&mut ctx, "g".repeat(51), bob(), 4, 1), Err(GameError::NameTooLong));
    assert_eq!(ctx, start);
    let stranger = UpdateGame { game, user: bob() };
    let mut ctx = stranger;
    assert_eq!(update_game(&mut ctx, "Go".to_string(), bob(), 4, 1), Err(GameError::NotGameOwner));
    assert_eq!(ctx, stranger);
}

#[test]
fn register_player_starts_at_zero_games() {
    let mut player = Player::default();
    player.nb_games = 9;
    let mut ctx = RegisterPlayer { player, user: alice() };
    assert_eq!(register_player(&mut ctx, "Neo".to_string()), Ok(()));
    assert_eq!(ctx.player.name, padded("Neo"));
    assert_eq!(ctx.player.wallet_address, alice());
    assert_eq!(ctx.player.nb_games, 0);
}

#[test]
fn register_player_refuses_space() {
    let start = RegisterPlayer { player: Player::default(), user: alice() };
    let mut ctx = start;
    assert_eq!(register_player(&mut ctx, "A B".to_string()), Err(PlayerError::InvalidNameFormat));
    assert_eq!(ctx, start);
    assert_eq!(register_player(&mut ctx, "p".repeat(51)), Err(PlayerError::NameTooLong));
    assert_eq!(ctx, start);
}

#[test]
fn update_player_by_owner_and_by_stranger() {
    let mut player = Player::default();
    player.wallet_address = alice();
    let mut ctx = UpdatePlayer { player, user: alice() };
    assert_eq!(update_player(&mut ctx, "Trinity".to_string(), 12), Ok(()));
    assert_eq!(ctx.player.name, padded("Trinity"));
    assert_eq!(ctx.player.wallet_address, alice());
    assert_eq!(ctx.player.nb_games, 12);
    let stranger = UpdatePlayer { player: ctx.player, user: bob() };
    let mut ctx = stranger;
    assert_eq!(update_player(&mut ctx, "Smith".to_string(), 13), Err(PlayerError::NotPlayerOwner));
    assert_eq!(ctx, stranger);
}

#[test]
fn update_player_with_bad_name_changes_nothing() {
    let mut player = Player::default();
    player.wallet_address = alice();
    let start = UpdatePlayer { player, user: alice() };
    let mut ctx = start;
    assert_eq!(update_player(&mut ctx, "?".to_string(), 1), Err(PlayerError::InvalidNameFormat));
    assert_eq!(ctx, start);
    assert_eq!(update_player(&mut ctx, "q".repeat(51), 1), Err(PlayerError::NameTooLong));
    assert_eq!(ctx, start);
}

#[test]
fn name_errors_map_to_each_kind() {
    assert_eq!(PortfolioError::from_name_error(NameError::InvalidNameFormat), PortfolioError::InvalidNameFormat);
    assert_eq!(PortfolioError::from_name_error(NameError::NameTooLong), PortfolioError::NameTooLong);
    assert_eq!(GameError::from_name_error(NameError::InvalidNameFormat), GameError::InvalidNameFormat);
    assert_eq!(GameError::from_name_error(NameError::NameTooLong), GameError::NameTooLong);
    assert_eq!(PlayerError::from_name_error(NameError::InvalidNameFormat), PlayerError::InvalidNameFormat);
    assert_eq!(PlayerError::from_name_error(NameError::NameTooLong), PlayerError::NameTooLong);
}

#[test]
fn messages() {
    assert_eq!(PortfolioError::InvalidNameFormat.message(), "Name can only contain letters and numbers");
    assert_eq!(PortfolioError::NameTooLong.message(), "Name is too long, maximum length is 50 characters");
    assert_eq!(PortfolioError::NotPortfolioOwner.message(), "Only the portfolio owner can update this portfolio");
    assert_eq!(GameError::InvalidNameFormat.message(), "Name can only contain letters and numbers");
    assert_eq!(GameError::NameTooLong.message(), "Name is too long, maximum length is 50 characters");
    assert_eq!(GameError::NotGameOwner.message(), "Only the game owner can update this game");
    assert_eq!(PlayerError::InvalidNameFormat.message(), "Name can only contain letters and numbers");
    assert_eq!(PlayerError::NameTooLong.message(), "Name is too long, maximum length is 50 characters");
    assert_eq!(PlayerError::NotPlayerOwner.message(), "Only the player owner can update this player");
}
