//! The wagering settlement engine: single-guess number games whose secret is
//! derived from the randomness oracle, paid out in proportion to the range
//! minus a house edge.
//!
//! A game moves `Open -> Guessed -> Won | Lost`; the last two are terminal.
//! The player's guess becomes visible before the oracle supplies its seed, so
//! an oracle that chose seeds adversarially could make every game lose; a game
//! whose seed never arrives stays `Guessed`, as there is no expiry or refund.
use crate::rng;
use crate::rng::RandomGenerator;
use crate::token::TokenLedger;
use crate::token::moved;
use crate::Address;
use std::collections::HashMap;
use vstd::prelude::*;

verus! {

/// The largest admitted number of values in a game's range; it keeps
/// `wager * range_size` within reach of the currency's arithmetic.
pub const MAX_RANGE_SIZE: u32 = 1_000_000;

/// One whole in basis points.
pub const BPS_DENOMINATOR: i128 = 10_000;

/// Why an engine operation was refused.
#[derive(Clone, Copy, Debug, PartialEq, Eq, Structural)]
pub enum Error {
    NotInitialized,
    AlreadyInitialized,
    NotAuthorized,
    InvalidRange,
    WagerOutOfBounds,
    DuplicateGameId,
    GuessOutOfRange,
    AlreadyGuessed,
    NotYetGuessed,
    AlreadyResolved,
    RandomnessNotFulfilled,
    GameNotFound,
    ArithmeticOverflow,
    /// The token refused to move the wager or the payout.
    TransferFailed,
}

#[derive(Clone, Copy, Debug, PartialEq, Eq, Structural)]
pub enum GameStatus {
    Open,
    Guessed,
    Won,
    Lost,
}

#[derive(Clone, Copy, Debug, PartialEq, Eq, Structural)]
pub struct Game {
    pub player: Address,
    pub min: u32,
    pub max: u32,
    pub wager: i128,
    /// Meaningful once the game is no longer `Open`.
    pub guess: u32,
    /// Meaningful once the game is `Won` or `Lost`.
    pub secret: u32,
    /// What was paid to the player; 0 unless the game is `Won`.
    pub payout: i128,
    pub status: GameStatus,
}

/// The engine's parameters, set once at initialisation.
#[derive(Clone, Copy, Debug, PartialEq, Eq, Structural)]
pub struct EngineConfig {
    pub admin: Address,
    pub rng_contract: Address,
    pub prize_pool: Address,
    pub token: Address,
    pub min_wager: i128,
    pub max_wager: i128,
    pub house_edge_bps: i128,
}

/// The number of values in `[min, max]`.
pub open spec fn range_size_of(min: u32, max: u32) -> int {
    max - min + 1
}

/// The secret a raw random value selects in `[min, max]`.
pub open spec fn secret_of(raw: u64, min: u32, max: u32) -> int {
    min + (raw as int) % range_size_of(min, max)
}

/// The gross payout of a winning game: the wager times the range size.
pub open spec fn gross_of(wager: int, range_size: int) -> int {
    wager * range_size
}

/// The house's share of a gross payout: `floor(gross * bps / 10000)`.
pub open spec fn fee_of(gross: int, house_edge_bps: int) -> int {
    gross * house_edge_bps / 10_000
}

/// The net payout of a winning game, or `None` where an intermediate value
/// leaves the range of `i128`.
pub open spec fn payout_of(wager: int, range_size: int, house_edge_bps: int) -> Option<int> {
    let gross = gross_of(wager, range_size);
    if gross > i128::MAX || gross * house_edge_bps > i128::MAX {
        None
    } else {
        Some(gross - fee_of(gross, house_edge_bps))
    }
}

/// A game as `start_game` creates it.
pub open spec fn new_game(player: Address, min: u32, max: u32, wager: i128) -> Game {
    Game { player, min, max, wager, guess: 0, secret: 0, payout: 0, status: GameStatus::Open }
}

/// The checks of `start_game` that precede the transfer of the wager, in order.
pub open spec fn start_check(
    config: Option<EngineConfig>,
    games: Map<u64, Game>,
    min: u32,
    max: u32,
    wager: i128,
    game_id: u64,
) -> Option<Error> {
    match config {
        None => Some(Error::NotInitialized),
        Some(c) => if min >= max || range_size_of(min, max) > MAX_RANGE_SIZE {
            Some(Error::InvalidRange)
        } else if wager < c.min_wager || wager > c.max_wager || wager <= 0 {
            Some(Error::WagerOutOfBounds)
        } else if games.contains_key(game_id) {
            Some(Error::DuplicateGameId)
        } else {
            None
        },
    }
}

/// The checks of `submit_guess`, in order.
pub open spec fn guess_check(game: Option<Game>, guess: u32) -> Option<Error> {
    match game {
        None => Some(Error::GameNotFound),
        Some(g) => if g.status != GameStatus::Open {
            Some(Error::AlreadyGuessed)
        } else if guess < g.min || guess > g.max {
            Some(Error::GuessOutOfRange)
        } else {
            None
        },
    }
}

/// A game after a guess was accepted.
pub open spec fn after_guess(g: Game, guess: u32) -> Game {
    Game { guess, status: GameStatus::Guessed, ..g }
}

/// The checks of `resolve_game` on the game's state, in order.
pub open spec fn resolve_check(config: Option<EngineConfig>, game: Option<Game>) -> Option<Error> {
    match config {
        None => Some(Error::NotInitialized),
        Some(_) => match game {
            None => Some(Error::GameNotFound),
            Some(g) => match g.status {
                GameStatus::Open => Some(Error::NotYetGuessed),
                GameStatus::Guessed => None,
                _ => Some(Error::AlreadyResolved),
            },
        },
    }
}

/// A guessed game settled from a raw random value: won with the net payout if
/// the guess is the secret, lost with no payout otherwise; `None` where the
/// payout overflows.
pub open spec fn settle(g: Game, raw: u64, house_edge_bps: i128) -> Option<Game> {
    let secret = secret_of(raw, g.min, g.max);
    if g.guess == secret {
        match payout_of(g.wager as int, range_size_of(g.min, g.max), house_edge_bps as int) {
            None => None,
            Some(net) => Some(
                Game { secret: secret as u32, payout: net as i128, status: GameStatus::Won, ..g },
            ),
        }
    } else {
        Some(Game { secret: secret as u32, payout: 0, status: GameStatus::Lost, ..g })
    }
}

/// A game record that the engine's rules admit.
pub open spec fn game_wf(g: Game) -> bool {
    &&& g.min < g.max
    &&& range_size_of(g.min, g.max) <= MAX_RANGE_SIZE
    &&& g.wager > 0
    &&& g.status != GameStatus::Open ==> g.min <= g.guess <= g.max
    &&& (g.status == GameStatus::Won || g.status == GameStatus::Lost) ==> g.min <= g.secret
        <= g.max
    &&& g.status != GameStatus::Won ==> g.payout == 0
    &&& g.payout >= 0
}

/// Computes the net payout of a winning game: `gross = wager * range_size`,
/// less `floor(gross * house_edge_bps / 10000)`, with every step checked.
pub fn compute_payout(wager: i128, range_size: u32, house_edge_bps: i128) -> (r: Result<i128, Error>)
    requires
        wager > 0,
        0 <= house_edge_bps <= BPS_DENOMINATOR,
    ensures
        r == match payout_of(wager as int, range_size as int, house_edge_bps as int) {
            Some(net) => Ok::<i128, Error>(net as i128),
            None => Err(Error::ArithmeticOverflow),
        },
{
    let gross = match wager.checked_mul(range_size as i128) {
        Some(g) => g,
        None => return Err(Error::ArithmeticOverflow),
    };
    let scaled = match gross.checked_mul(house_edge_bps) {
        Some(s) => s,
        None => return Err(Error::ArithmeticOverflow),
    };
    assert(gross >= 0 && scaled >= 0) by (nonlinear_arith)
        requires
            gross == wager * range_size,
            scaled == gross * house_edge_bps,
            wager > 0,
            house_edge_bps >= 0,
    ;
    assert(scaled / 10_000 <= gross) by (nonlinear_arith)
        requires
            scaled == gross * house_edge_bps,
            gross >= 0,
            0 <= house_edge_bps <= 10_000,
    ;
    let fee = scaled / BPS_DENOMINATOR;
    Ok(gross - fee)
}

/// Selects the secret in `[min, max]` from a raw random value.
pub fn derive_secret(raw: u64, min: u32, max: u32) -> (r: u32)
    requires
        min < max,
    ensures
        r == secret_of(raw, min, max),
        min <= r <= max,
{
    let range: u64 = (max - min) as u64 + 1;
    let offset = raw % range;
    min + offset as u32
}

/// The wagering engine.
pub struct NumberGuess {
    id: Address,
    config: Option<EngineConfig>,
    games: HashMap<u64, Game>,
}

impl NumberGuess {
    /// The engine's own identity: it holds the wagers and reads the oracle.
    pub closed spec fn id(&self) -> Address {
        self.id
    }

    pub closed spec fn config(&self) -> Option<EngineConfig> {
        self.config
    }

    /// The games, by id.
    pub closed spec fn games(&self) -> Map<u64, Game> {
        self.games@
    }

    /// The configuration admits basis-point math and every game is well formed.
    pub open spec fn wf(&self) -> bool {
        &&& (self.config() matches Some(c) ==> 0 <= c.house_edge_bps <= BPS_DENOMINATOR)
        &&& forall|id: u64| #[trigger] self.games().contains_key(id) ==> game_wf(self.games()[id])
    }

    /// What `start_game` returns, given the ledger before the call.
    pub open spec fn start_outcome(
        &self,
        token: TokenLedger,
        player: Address,
        min: u32,
        max: u32,
        wager: i128,
        game_id: u64,
    ) -> Result<(), Error> {
        match start_check(self.config(), self.games(), min, max, wager, game_id) {
            Some(e) => Err(e),
            None => if token.transfer_outcome(player, self.id(), wager) is Err {
                Err(Error::TransferFailed)
            } else {
                Ok(())
            },
        }
    }

    /// What `resolve_game` returns, given the oracle and the ledger before the call.
    pub open spec fn resolve_outcome(&self, rng: RandomGenerator, token: TokenLedger, game_id: u64) -> Result<
        Game,
        Error,
    > {
        let g = self.games()[game_id];
        match resolve_check(self.config(), self.games().get(game_id)) {
            Some(e) => Err(e),
            None => match rng.read_outcome(self.id(), game_id) {
                Err(rng::Error::NotFulfilled) => Err(Error::RandomnessNotFulfilled),
                Err(_) => Err(Error::NotAuthorized),
                Ok(raw) => match settle(g, raw, self.config().unwrap().house_edge_bps) {
                    None => Err(Error::ArithmeticOverflow),
                    Some(done) => if done.status == GameStatus::Won && token.transfer_outcome(
                        self.id(),
                        g.player,
                        done.payout,
                    ) is Err {
                        Err(Error::TransferFailed)
                    } else {
                        Ok(done)
                    },
                },
            },
        }
    }

    /// An engine with identity `id`, not yet initialised.
    pub fn new(id: Address) -> (r: Self)
        ensures
            r.wf(),
            r.id() == id,
            r.config() is None,
            r.games() == Map::<u64, Game>::empty(),
    {
        NumberGuess { id, config: None, games: HashMap::new() }
    }

    /// Sets the engine's parameters once.
    pub fn init(
        &mut self,
        admin: Address,
        rng_contract: Address,
        prize_pool: Address,
        token: Address,
        min_wager: i128,
        max_wager: i128,
        house_edge_bps: i128,
    ) -> (r: Result<(), Error>)
        requires
            old(self).wf(),
            0 <= house_edge_bps <= BPS_DENOMINATOR,
        ensures
            final(self).wf(),
            final(self).id() == old(self).id(),
            final(self).games() == old(self).games(),
            old(self).config() is Some ==> r == Err::<(), Error>(Error::AlreadyInitialized)
                && final(self).config() == old(self).config(),
            old(self).config() is None ==> r is Ok && final(self).config() == Some(
                EngineConfig {
                    admin,
                    rng_contract,
                    prize_pool,
                    token,
                    min_wager,
                    max_wager,
                    house_edge_bps,
                },
            ),
    {
        if self.config.is_some() {
            return Err(Error::AlreadyInitialized);
        }
        self.config = Some(
            EngineConfig {
                admin,
                rng_contract,
                prize_pool,
                token,
                min_wager,
                max_wager,
                house_edge_bps,
            },
        );
        assert(self.games() == old(self).games());
        Ok(())
    }

    /// Opens game `game_id` for `player` over `[min, max]`, moving the wager
    /// from the player to the engine.
    pub fn start_game(
        &mut self,
        token: &mut TokenLedger,
        player: Address,
        min: u32,
        max: u32,
        wager: i128,
        game_id: u64,
    ) -> (r: Result<(), Error>)
        requires
            old(self).wf(),
            old(token).wf(),
        ensures
            final(self).wf(),
            final(token).wf(),
            final(self).id() == old(self).id(),
            final(self).config() == old(self).config(),
            r == old(self).start_outcome(*old(token), player, min, max, wager, game_id),
            r is Ok ==> final(self).games() == old(self).games().insert(
                game_id,
                new_game(player, min, max, wager),
            ) && final(self).games()[game_id].status == GameStatus::Open
                && final(token).view_balances() == moved(
                old(token).view_balances(),
                player.0,
                old(self).id().0,
                wager as int,
            ),
            r is Ok && player != old(self).id() ==> final(token).balance_of(player) == old(
                token,
            ).balance_of(player) - wager,
            r is Err ==> final(self).games() == old(self).games() && final(token).view_balances()
                == old(token).view_balances(),
    {
        broadcast use vstd::std_specs::hash::group_hash_axioms;

        let c = match self.config {
            None => return Err(Error::NotInitialized),
            Some(c) => c,
        };
        if min >= max || max - min >= MAX_RANGE_SIZE {
            return Err(Error::InvalidRange);
        }
        if wager < c.min_wager || wager > c.max_wager || wager <= 0 {
            return Err(Error::WagerOutOfBounds);
        }
        if self.games.contains_key(&game_id) {
            return Err(Error::DuplicateGameId);
        }
        match token.transfer(player, self.id, wager) {
            Err(_) => return Err(Error::TransferFailed),
            Ok(()) => {},
        }
        self.games.insert(
            game_id,
            Game {
                player,
                min,
                max,
                wager,
                guess: 0,
                secret: 0,
                payout: 0,
                status: GameStatus::Open,
            },
        );
        Ok(())
    }

    /// Records the player's guess for an open game.
    pub fn submit_guess(&mut self, game_id: u64, guess: u32) -> (r: Result<(), Error>)
        requires
            old(self).wf(),
        ensures
            final(self).wf(),
            final(self).id() == old(self).id(),
            final(self).config() == old(self).config(),
            r == match guess_check(old(self).games().get(game_id), guess) {
                Some(e) => Err(e),
                None => Ok::<(), Error>(()),
            },
            r is Ok ==> final(self).games() == old(self).games().insert(
                game_id,
                after_guess(old(self).games()[game_id], guess),
            ),
            r is Err ==> final(self).games() == old(self).games(),
    {
        broadcast use vstd::std_specs::hash::group_hash_axioms;

        let g = match self.games.get(&game_id) {
            None => return Err(Error::GameNotFound),
            Some(g) => *g,
        };
        if g.status != GameStatus::Open {
            return Err(Error::AlreadyGuessed);
        }
        if guess < g.min || guess > g.max {
            return Err(Error::GuessOutOfRange);
        }
        self.games.insert(game_id, Game { guess, status: GameStatus::Guessed, ..g });
        assert forall|id: u64| #[trigger] self.games().contains_key(id) implies game_wf(
            self.games()[id],
        ) by {
            if id != game_id {
                assert(old(self).games().contains_key(id));
            }
        }
        Ok(())
    }

    /// Settles a guessed game from the oracle's value for its id: the secret
    /// is `min + raw % range_size`; a correct guess is paid the net payout
    /// from the engine's balance, a wrong one is lost with nothing paid.
    pub fn resolve_game(&mut self, rng: &RandomGenerator, token: &mut TokenLedger, game_id: u64) -> (r:
        Result<Game, Error>)
        requires
            old(self).wf(),
            old(token).wf(),
            rng.wf(),
        ensures
            final(self).wf(),
            final(token).wf(),
            final(self).id() == old(self).id(),
            final(self).config() == old(self).config(),
            r == old(self).resolve_outcome(*rng, *old(token), game_id),
            r matches Ok(done) ==> final(self).games() == old(self).games().insert(game_id, done),
            r matches Ok(done) ==> done.status == GameStatus::Won || done.status
                == GameStatus::Lost,
            r matches Ok(done) ==> (done.status == GameStatus::Won ==> final(token).view_balances() == moved(
                old(token).view_balances(),
                old(self).id().0,
                done.player.0,
                done.payout as int,
            )),
            r matches Ok(done) ==> (done.status == GameStatus::Lost ==> done.payout == 0
                && final(token).view_balances() == old(token).view_balances()),
            r is Err ==> final(self).games() == old(self).games() && final(token).view_balances()
                == old(token).view_balances(),
    {
        broadcast use vstd::std_specs::hash::group_hash_axioms;

        let c = match self.config {
            None => return Err(Error::NotInitialized),
            Some(c) => c,
        };
        let g = match self.games.get(&game_id) {
            None => return Err(Error::GameNotFound),
            Some(g) => *g,
        };
        match g.status {
            GameStatus::Open => return Err(Error::NotYetGuessed),
            GameStatus::Guessed => {},
            _ => return Err(Error::AlreadyResolved),
        }
        let raw = match rng.read_result(self.id, game_id) {
            Ok(v) => v,
            Err(rng::Error::NotFulfilled) => return Err(Error::RandomnessNotFulfilled),
            Err(_) => return Err(Error::NotAuthorized),
        };
        let secret = derive_secret(raw, g.min, g.max);
        let done = if g.guess == secret {
            let net = match compute_payout(g.wager, g.max - g.min + 1, c.house_edge_bps) {
                Ok(n) => n,
                Err(e) => return Err(e),
            };
            match token.transfer(self.id, g.player, net) {
                Err(_) => return Err(Error::TransferFailed),
                Ok(()) => {},
            }
            Game { secret, payout: net, status: GameStatus::Won, ..g }
        } else {
            Game { secret, payout: 0, status: GameStatus::Lost, ..g }
        };
        self.games.insert(game_id, done);
        Ok(done)
    }

    /// The record of game `game_id`.
    pub fn get_game(&self, game_id: u64) -> (r: Result<Game, Error>)
        ensures
            r == if self.games().contains_key(game_id) {
                Ok(self.games()[game_id])
            } else {
                Err(Error::GameNotFound)
            },
    {
        broadcast use vstd::std_specs::hash::group_hash_axioms;

        match self.games.get(&game_id) {
            Some(g) => Ok(*g),
            None => Err(Error::GameNotFound),
        }
    }
}

/// Whatever the raw value, the secret lies in `[min, max]`.
pub proof fn law_secret_in_range(raw: u64, min: u32, max: u32)
    requires
        min < max,
    ensures
        min <= secret_of(raw, min, max) <= max,
{
}

/// A settled game has a positive payout exactly when it was won, as long as
/// the house keeps less than the whole gross payout.
pub proof fn law_payout_positive_iff_won(g: Game, raw: u64, house_edge_bps: i128, done: Game)
    requires
        game_wf(g),
        g.status == GameStatus::Guessed,
        0 <= house_edge_bps < BPS_DENOMINATOR,
        settle(g, raw, house_edge_bps) == Some(done),
    ensures
        done.payout > 0 <==> done.status == GameStatus::Won,
{
    if done.status == GameStatus::Won {
        let gross = gross_of(g.wager as int, range_size_of(g.min, g.max));
        assert(gross > 0) by (nonlinear_arith)
            requires
                gross == g.wager * range_size_of(g.min, g.max),
                g.wager > 0,
                range_size_of(g.min, g.max) > 0,
        ;
        assert(gross * house_edge_bps / 10_000 < gross) by (nonlinear_arith)
            requires
                gross > 0,
                0 <= house_edge_bps < 10_000,
        ;
    }
}

/// Starting a game under an id already in use fails with `DuplicateGameId`,
/// whoever the player and whatever the ledger, once range and wager are
/// admissible (those are checked first).
pub proof fn law_reused_game_id(
    e: NumberGuess,
    token: TokenLedger,
    player: Address,
    min: u32,
    max: u32,
    wager: i128,
    game_id: u64,
)
    requires
        e.games().contains_key(game_id),
        e.config() matches Some(c) && c.min_wager <= wager <= c.max_wager,
        wager > 0,
        min < max,
        range_size_of(min, max) <= MAX_RANGE_SIZE,
    ensures
        e.start_outcome(token, player, min, max, wager, game_id) == Err::<(), Error>(
            Error::DuplicateGameId,
        ),
{
}

/// On an initialised engine, `start_game` refuses a range with `InvalidRange`
/// exactly when its size is not between 2 and `MAX_RANGE_SIZE`.
pub proof fn law_range_size_bounds(
    e: NumberGuess,
    token: TokenLedger,
    player: Address,
    min: u32,
    max: u32,
    wager: i128,
    game_id: u64,
)
    requires
        e.config() is Some,
    ensures
        (e.start_outcome(token, player, min, max, wager, game_id) == Err::<(), Error>(
            Error::InvalidRange,
        )) <==> !(2 <= range_size_of(min, max) <= MAX_RANGE_SIZE),
{
}

/// An open game accepts exactly the guesses in `[min, max]`, bounds included,
/// and once a guess is accepted every further guess fails with `AlreadyGuessed`.
pub proof fn law_guess_bounds_and_once(g: Game, guess: u32, again: u32)
    requires
        g.status == GameStatus::Open,
    ensures
        guess_check(Some(g), guess) is None <==> g.min <= guess <= g.max,
        guess_check(Some(g), guess) is None ==> guess_check(Some(after_guess(g, guess)), again)
            == Some(Error::AlreadyGuessed),
{
}

/// Resolving an open game fails with `NotYetGuessed`; resolving a guessed game
/// whose seed has not arrived fails with `RandomnessNotFulfilled`, where the
/// engine may read the oracle.
pub proof fn law_resolve_preconditions(
    e: NumberGuess,
    rng: RandomGenerator,
    token: TokenLedger,
    game_id: u64,
)
    requires
        e.config() is Some,
        e.games().contains_key(game_id),
    ensures
        e.games()[game_id].status == GameStatus::Open ==> e.resolve_outcome(rng, token, game_id)
            == Err::<Game, Error>(Error::NotYetGuessed),
        e.games()[game_id].status == GameStatus::Guessed && rng.requesters().contains(e.id().0)
            && !rng.is_fulfilled(game_id) ==> e.resolve_outcome(rng, token, game_id) == Err::<
            Game,
            Error,
        >(Error::RandomnessNotFulfilled),
{
}

/// After a successful resolution, resolving the same game again fails with
/// `AlreadyResolved`, whatever the oracle and the ledger then hold.
pub proof fn law_resolve_once(
    before: NumberGuess,
    after: NumberGuess,
    rng: RandomGenerator,
    token: TokenLedger,
    game_id: u64,
    done: Game,
    rng_later: RandomGenerator,
    token_later: TokenLedger,
)
    requires
        before.resolve_outcome(rng, token, game_id) == Ok::<Game, Error>(done),
        after.config() == before.config(),
        after.games() == before.games().insert(game_id, done),
    ensures
        after.resolve_outcome(rng_later, token_later, game_id) == Err::<Game, Error>(
            Error::AlreadyResolved,
        ),
{
}

} // verus!
