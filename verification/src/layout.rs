//! The persisted byte layout of the three records: the fields in order, the
//! name and the owner as they are, every number as four little-endian bytes.
//! The host's 8-byte tag in front of a record is not part of it.

use vstd::prelude::*;
use crate::constants::{INT_LENGTH, NAME_LENGTH, PUBLIC_KEY_LENGTH, U32_LENGTH};
use crate::identity::Identity;
use crate::state::{Game, GameView, Player, PlayerView, Portfolio, PortfolioView};

verus! {

/// Bytes of a stored portfolio after the tag.
pub const PORTFOLIO_PAYLOAD: usize = NAME_LENGTH + PUBLIC_KEY_LENGTH + U32_LENGTH + U32_LENGTH
    + U32_LENGTH + U32_LENGTH + INT_LENGTH;

/// Bytes of a stored game after the tag.
pub const GAME_PAYLOAD: usize = NAME_LENGTH + PUBLIC_KEY_LENGTH + U32_LENGTH + INT_LENGTH;

/// Bytes of a stored player after the tag.
pub const PLAYER_PAYLOAD: usize = NAME_LENGTH + PUBLIC_KEY_LENGTH + U32_LENGTH;

/// The four bytes of `x`, lowest first.
pub open spec fn u32_le(x: u32) -> Seq<u8> {
    seq![x as u8, (x >> 8) as u8, (x >> 16) as u8, (x >> 24) as u8]
}

/// The number whose four bytes, lowest first, are `b0` to `b3`.
pub open spec fn u32_of_le(b0: u8, b1: u8, b2: u8, b3: u8) -> u32 {
    (b0 as u32) | ((b1 as u32) << 8) | ((b2 as u32) << 16) | ((b3 as u32) << 24)
}

/// The four bytes of `x` in two's complement, lowest first.
pub open spec fn i32_le(x: i32) -> Seq<u8> {
    u32_le(x as u32)
}

/// Reading four little-endian bytes undoes writing them, and the other way round.
pub proof fn lemma_u32_le_round_trip(x: u32, b0: u8, b1: u8, b2: u8, b3: u8)
    ensures
        u32_of_le(x as u8, (x >> 8) as u8, (x >> 16) as u8, (x >> 24) as u8) == x,
        u32_le(u32_of_le(b0, b1, b2, b3)) == seq![b0, b1, b2, b3],
{
    assert(((x as u8) as u32) | ((((x >> 8) as u8) as u32) << 8) | ((((x >> 16) as u8) as u32) << 16) | ((((x
        >> 24) as u8) as u32) << 24) == x) by (bit_vector);
    let y = u32_of_le(b0, b1, b2, b3);
    assert(y as u8 == b0 && (y >> 8) as u8 == b1 && (y >> 16) as u8 == b2 && (y >> 24) as u8 == b3) by (bit_vector)
        requires
            y == (b0 as u32) | ((b1 as u32) << 8) | ((b2 as u32) << 16) | ((b3 as u32) << 24),
    ;
}

/// A signed number and its two's complement pattern determine each other.
pub proof fn lemma_i32_pattern(x: i32, y: u32)
    ensures
        (x as u32) as i32 == x,
        (y as i32) as u32 == y,
{
    assert((x as u32) as i32 == x) by (bit_vector);
    assert((y as i32) as u32 == y) by (bit_vector);
}

/// The stored bytes of a portfolio.
pub open spec fn portfolio_payload(p: PortfolioView) -> Seq<u8> {
    p.name + p.owner + u32_le(p.token_count) + u32_le(p.transaction_count) + u32_le(p.total_token_amount)
        + u32_le(p.total_value_in_stablecoin) + i32_le(p.creation_date)
}

/// The stored bytes of a game.
pub open spec fn game_payload(g: GameView) -> Seq<u8> {
    g.name + g.owner + u32_le(g.max_players) + i32_le(g.creation_date)
}

/// The stored bytes of a player.
pub open spec fn player_payload(p: PlayerView) -> Seq<u8> {
    p.name + p.owner + u32_le(p.games_played)
}

/// Two numbers with the same four bytes are the same number.
pub proof fn lemma_u32_le_injective(x: u32, y: u32)
    requires
        u32_le(x) == u32_le(y),
    ensures
        x == y,
{
    lemma_u32_le_round_trip(x, 0, 0, 0, 0);
    lemma_u32_le_round_trip(y, 0, 0, 0, 0);
    assert(u32_le(x)[0] == u32_le(y)[0]);
    assert(u32_le(x)[1] == u32_le(y)[1]);
    assert(u32_le(x)[2] == u32_le(y)[2]);
    assert(u32_le(x)[3] == u32_le(y)[3]);
}

/// The name and the owner of a record's view have their fixed widths.
pub open spec fn fixed_widths(name: Seq<u8>, owner: Seq<u8>) -> bool {
    name.len() == NAME_LENGTH && owner.len() == PUBLIC_KEY_LENGTH
}

/// The stored bytes determine the portfolio: two portfolios with the same
/// bytes hold the same values, so reading what was written gives it back.
pub proof fn lemma_portfolio_payload_injective(a: PortfolioView, b: PortfolioView)
    requires
        fixed_widths(a.name, a.owner),
        fixed_widths(b.name, b.owner),
        portfolio_payload(a) == portfolio_payload(b),
    ensures
        a == b,
{
    let pa = portfolio_payload(a);
    let pb = portfolio_payload(b);
    assert(a.name =~= pa.subrange(0, 50) && b.name =~= pb.subrange(0, 50));
    assert(a.owner =~= pa.subrange(50, 82) && b.owner =~= pb.subrange(50, 82));
    assert(u32_le(a.token_count) =~= pa.subrange(82, 86) && u32_le(b.token_count) =~= pb.subrange(82, 86));
    assert(u32_le(a.transaction_count) =~= pa.subrange(86, 90) && u32_le(b.transaction_count) =~= pb.subrange(
        86,
        90,
    ));
    assert(u32_le(a.total_token_amount) =~= pa.subrange(90, 94) && u32_le(b.total_token_amount)
        =~= pb.subrange(90, 94));
    assert(u32_le(a.total_value_in_stablecoin) =~= pa.subrange(94, 98) && u32_le(b.total_value_in_stablecoin)
        =~= pb.subrange(94, 98));
    assert(i32_le(a.creation_date) =~= pa.subrange(98, 102) && i32_le(b.creation_date) =~= pb.subrange(98, 102));
    lemma_u32_le_injective(a.token_count, b.token_count);
    lemma_u32_le_injective(a.transaction_count, b.transaction_count);
    lemma_u32_le_injective(a.total_token_amount, b.total_token_amount);
    lemma_u32_le_injective(a.total_value_in_stablecoin, b.total_value_in_stablecoin);
    lemma_u32_le_injective(a.creation_date as u32, b.creation_date as u32);
    lemma_i32_pattern(a.creation_date, 0);
    lemma_i32_pattern(b.creation_date, 0);
}

/// The stored bytes determine the game.
pub proof fn lemma_game_payload_injective(a: GameView, b: GameView)
    requires
        fixed_widths(a.name, a.owner),
        fixed_widths(b.name, b.owner),
        game_payload(a) == game_payload(b),
    ensures
        a == b,
{
    let pa = game_payload(a);
    let pb = game_payload(b);
    assert(a.name =~= pa.subrange(0, 50) && b.name =~= pb.subrange(0, 50));
    assert(a.owner =~= pa.subrange(50, 82) && b.owner =~= pb.subrange(50, 82));
    assert(u32_le(a.max_players) =~= pa.subrange(82, 86) && u32_le(b.max_players) =~= pb.subrange(82, 86));
    assert(i32_le(a.creation_date) =~= pa.subrange(86, 90) && i32_le(b.creation_date) =~= pb.subrange(86, 90));
    lemma_u32_le_injective(a.max_players, b.max_players);
    lemma_u32_le_injective(a.creation_date as u32, b.creation_date as u32);
    lemma_i32_pattern(a.creation_date, 0);
    lemma_i32_pattern(b.creation_date, 0);
}

/// The stored bytes determine the player.
pub proof fn lemma_player_payload_injective(a: PlayerView, b: PlayerView)
    requires
        fixed_widths(a.name, a.owner),
        fixed_widths(b.name, b.owner),
        player_payload(a) == player_payload(b),
    ensures
        a == b,
{
    let pa = player_payload(a);
    let pb = player_payload(b);
    assert(a.name =~= pa.subrange(0, 50) && b.name =~= pb.subrange(0, 50));
    assert(a.owner =~= pa.subrange(50, 82) && b.owner =~= pb.subrange(50, 82));
    assert(u32_le(a.games_played) =~= pa.subrange(82, 86) && u32_le(b.games_played) =~= pb.subrange(82, 86));
    lemma_u32_le_injective(a.games_played, b.games_played);
}

fn append(out: &mut Vec<u8>, src: &[u8])
    ensures
        final(out)@ == old(out)@ + src@,
{
    let mut i: usize = 0;
    while i < src.len()
        invariant
            i <= src@.len(),
            out@ == old(out)@ + src@.subrange(0, i as int),
        decreases src@.len() - i,
    {
        out.push(src[i]);
        i += 1;
        assert(out@ =~= old(out)@ + src@.subrange(0, i as int));
    }
    assert(src@.subrange(0, i as int) =~= src@);
}

fn append_u32(out: &mut Vec<u8>, x: u32)
    ensures
        final(out)@ == old(out)@ + u32_le(x),
{
    out.push(#[verifier::truncate] (x as u8));
    out.push(#[verifier::truncate] ((x >> 8) as u8));
    out.push(#[verifier::truncate] ((x >> 16) as u8));
    out.push(#[verifier::truncate] ((x >> 24) as u8));
    assert(out@ =~= old(out)@ + u32_le(x));
}

fn append_i32(out: &mut Vec<u8>, x: i32)
    ensures
        final(out)@ == old(out)@ + i32_le(x),
{
    append_u32(out, #[verifier::truncate] (x as u32));
}

fn read_name(bytes: &[u8], at: usize) -> (out: [u8; NAME_LENGTH])
    requires
        at + NAME_LENGTH <= bytes@.len(),
    ensures
        out@ == bytes@.subrange(at as int, at + NAME_LENGTH),
{
    let total = bytes.len();
    let mut out = [0u8; NAME_LENGTH];
    let mut i: usize = 0;
    while i < NAME_LENGTH
        invariant
            i <= NAME_LENGTH,
            at + NAME_LENGTH <= bytes@.len() == total,
            forall|j: int| 0 <= j < i ==> out@[j] == bytes@[at + j],
        decreases NAME_LENGTH - i,
    {
        out[i] = bytes[at + i];
        i += 1;
    }
    assert(out@ =~= bytes@.subrange(at as int, at + NAME_LENGTH));
    out
}

fn read_identity(bytes: &[u8], at: usize) -> (id: Identity)
    requires
        at + PUBLIC_KEY_LENGTH <= bytes@.len(),
    ensures
        id@ == bytes@.subrange(at as int, at + PUBLIC_KEY_LENGTH),
{
    let total = bytes.len();
    let mut out = [0u8; PUBLIC_KEY_LENGTH];
    let mut i: usize = 0;
    while i < PUBLIC_KEY_LENGTH
        invariant
            i <= PUBLIC_KEY_LENGTH,
            at + PUBLIC_KEY_LENGTH <= bytes@.len() == total,
            forall|j: int| 0 <= j < i ==> out@[j] == bytes@[at + j],
        decreases PUBLIC_KEY_LENGTH - i,
    {
        out[i] = bytes[at + i];
        i += 1;
    }
    assert(out@ =~= bytes@.subrange(at as int, at + PUBLIC_KEY_LENGTH));
    Identity::new(out)
}

fn read_u32(bytes: &[u8], at: usize) -> (x: u32)
    requires
        at + 4 <= bytes@.len(),
    ensures
        u32_le(x) == bytes@.subrange(at as int, at + 4),
{
    let b0 = bytes[at];
    let b1 = bytes[at + 1];
    let b2 = bytes[at + 2];
    let b3 = bytes[at + 3];
    let x = (b0 as u32) | ((b1 as u32) << 8) | ((b2 as u32) << 16) | ((b3 as u32) << 24);
    proof {
        lemma_u32_le_round_trip(0, b0, b1, b2, b3);
        assert(bytes@.subrange(at as int, at + 4) =~= seq![b0, b1, b2, b3]);
    }
    x
}

fn read_i32(bytes: &[u8], at: usize) -> (x: i32)
    requires
        at + 4 <= bytes@.len(),
    ensures
        i32_le(x) == bytes@.subrange(at as int, at + 4),
{
    let pattern = read_u32(bytes, at);
    proof {
        lemma_i32_pattern(0, pattern);
    }
    #[verifier::truncate]
    (pattern as i32)
}

impl Portfolio {
    /// The bytes under which the portfolio is stored, 102 of them.
    pub fn to_bytes(&self) -> (out: Vec<u8>)
        ensures
            out@ == portfolio_payload(self@),
            out@.len() == PORTFOLIO_PAYLOAD,
    {
        let mut out: Vec<u8> = Vec::new();
        append(&mut out, self.name.as_slice());
        append(&mut out, self.wallet_address.bytes.as_slice());
        append_u32(&mut out, self.nb_tokens);
        append_u32(&mut out, self.nb_transactions);
        append_u32(&mut out, self.amount_total_tokens);
        append_u32(&mut out, self.amount_total_value_stablecoin);
        append_i32(&mut out, self.date_portfolio);
        assert(out@ =~= portfolio_payload(self@));
        out
    }

    /// Reads a stored portfolio back. Any 102 bytes are one; nothing else is.
    pub fn from_bytes(bytes: &[u8]) -> (r: Option<Portfolio>)
        ensures
            r is Some <==> bytes@.len() == PORTFOLIO_PAYLOAD,
            r matches Some(p) ==> portfolio_payload(p@) == bytes@,
    {
        if bytes.len() != PORTFOLIO_PAYLOAD {
            return None;
        }
        let p = Portfolio {
            name: read_name(bytes, 0),
            wallet_address: read_identity(bytes, 50),
            nb_tokens: read_u32(bytes, 82),
            nb_transactions: read_u32(bytes, 86),
            amount_total_tokens: read_u32(bytes, 90),
            amount_total_value_stablecoin: read_u32(bytes, 94),
            date_portfolio: read_i32(bytes, 98),
        };
        assert(portfolio_payload(p@) =~= bytes@);
        Some(p)
    }
}

impl Game {
    /// The bytes under which the game is stored, 90 of them.
    pub fn to_bytes(&self) -> (out: Vec<u8>)
        ensures
            out@ == game_payload(self@),
            out@.len() == GAME_PAYLOAD,
    {
        let mut out: Vec<u8> = Vec::new();
        append(&mut out, self.name.as_slice());
        append(&mut out, self.wallet_address.bytes.as_slice());
        append_u32(&mut out, self.total_max_players);
        append_i32(&mut out, self.date_game);
        assert(out@ =~= game_payload(self@));
        out
    }

    /// Reads a stored game back. Any 90 bytes are one; nothing else is.
    pub fn from_bytes(bytes: &[u8]) -> (r: Option<Game>)
        ensures
            r is Some <==> bytes@.len() == GAME_PAYLOAD,
            r matches Some(g) ==> game_payload(g@) == bytes@,
    {
        if bytes.len() != GAME_PAYLOAD {
            return None;
        }
        let g = Game {
            name: read_name(bytes, 0),
            wallet_address: read_identity(bytes, 50),
            total_max_players: read_u32(bytes, 82),
            date_game: read_i32(bytes, 86),
        };
        assert(game_payload(g@) =~= bytes@);
        Some(g)
    }
}

impl Player {
    /// The bytes under which the player is stored, 86 of them.
    pub fn to_bytes(&self) -> (out: Vec<u8>)
        ensures
            out@ == player_payload(self@),
            out@.len() == PLAYER_PAYLOAD,
    {
        let mut out: Vec<u8> = Vec::new();
        append(&mut out, self.name.as_slice());
        append(&mut out, self.wallet_address.bytes.as_slice());
        append_u32(&mut out, self.nb_games);
        assert(out@ =~= player_payload(self@));
        out
    }

    /// Reads a stored player back. Any 86 bytes are one; nothing else is.
    pub fn from_bytes(bytes: &[u8]) -> (r: Option<Player>)
        ensures
            r is Some <==> bytes@.len() == PLAYER_PAYLOAD,
            r matches Some(p) ==> player_payload(p@) == bytes@,
    {
        if bytes.len() != PLAYER_PAYLOAD {
            return None;
        }
        let p = Player {
            name: read_name(bytes, 0),
            wallet_address: read_identity(bytes, 50),
            nb_games: read_u32(bytes, 82),
        };
        assert(player_payload(p@) =~= bytes@);
        Some(p)
    }
}

} // verus!
