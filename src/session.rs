use vstd::prelude::*;

use crate::account::AccountId;
use crate::board::{has_line, line_owned, CELLS, SIDE};
use crate::render::{render, rendered};
use crate::MIN_STAKE;

verus! {

/// Failures that the registration, activation and win operations report.
#[derive(Clone, Copy, Debug, PartialEq, Eq, Structural)]
pub enum Error {
    /// Registration is closed: the game was activated.
    AlreadyStarted,
    /// Fewer than two players are registered, or nobody has won yet.
    NotStarted,
    /// The stake sent with a registration is below `MIN_STAKE`.
    NotEnoughMoney,
}

/// Calls that cannot be carried out at all.
#[derive(Clone, Copy, Debug, PartialEq, Eq, Structural)]
pub enum Fault {
    /// The caller never registered, so it has no marker.
    NotRegistered,
    /// A coordinate lies outside the board.
    OutOfBounds,
}

/// The mathematical state of a session.
pub struct GameState {
    /// The cells, row by row; 0 is an empty cell.
    pub board: Seq<u8>,
    /// Registered accounts, in order of registration, repeats included.
    pub players: Seq<AccountId>,
    /// The marker that each registered account writes on the board.
    pub markers: Map<AccountId, u8>,
    pub started: bool,
    pub terminated: bool,
    /// The latched winner; the zero identity while there is none.
    pub winner: AccountId,
}

impl GameState {
    /// The board has its 25 cells and every registered account has a marker.
    pub open spec fn valid(self) -> bool {
        &&& self.board.len() == 25
        &&& forall|i: int| 0 <= i < self.players.len() ==> self.markers.contains_key(#[trigger] self.players[i])
    }

    /// Account `who` has a marker that owns a full row or column.
    pub open spec fn wins(self, who: AccountId) -> bool {
        self.markers.contains_key(who) && has_line(self.board, self.markers[who])
    }

    /// `players[i]` wins and no account registered before it does.
    pub open spec fn first_winner_at(self, i: int) -> bool {
        &&& 0 <= i < self.players.len()
        &&& self.wins(self.players[i])
        &&& forall|j: int| 0 <= j < i ==> !#[trigger] self.wins(self.players[j])
    }

    /// No registered account wins.
    pub open spec fn no_winner(self) -> bool {
        forall|i: int| 0 <= i < self.players.len() ==> !#[trigger] self.wins(self.players[i])
    }

    /// Registration is open: the game was neither activated nor ended.
    pub open spec fn registering(self) -> bool {
        !self.started && !self.terminated
    }

    /// Moves are accepted: the game was activated and has not ended.
    pub open spec fn active(self) -> bool {
        self.started && !self.terminated
    }

    /// What a registration with stake `stake` reports.
    pub open spec fn join_outcome(self, stake: u128) -> Result<(), Error> {
        if !self.registering() {
            Err(Error::AlreadyStarted)
        } else if stake < MIN_STAKE {
            Err(Error::NotEnoughMoney)
        } else {
            Ok(())
        }
    }

    /// The state after `who` registered with marker `number`.
    pub open spec fn joined(self, who: AccountId, number: u8) -> GameState {
        GameState { players: self.players.push(who), markers: self.markers.insert(who, number), ..self }
    }

    /// The state after a registration attempt, whatever its outcome.
    pub open spec fn after_join(self, who: AccountId, stake: u128, number: u8) -> GameState {
        if self.join_outcome(stake) is Ok {
            self.joined(who, number)
        } else {
            self
        }
    }

    /// What an activation reports: it only asks for two registrations.
    pub open spec fn start_outcome(self) -> Result<(), Error> {
        if self.players.len() >= 2 {
            Ok(())
        } else {
            Err(Error::NotStarted)
        }
    }

    /// The state after an activation attempt.
    pub open spec fn after_start(self) -> GameState {
        if self.players.len() >= 2 {
            GameState { started: true, ..self }
        } else {
            self
        }
    }

    /// What a move of `who` onto row `x`, column `y` reports.
    pub open spec fn move_outcome(self, who: AccountId, x: u32, y: u32) -> Result<bool, Fault> {
        if !self.active() {
            Ok(false)
        } else if !self.markers.contains_key(who) {
            Err(Fault::NotRegistered)
        } else if x >= 5 || y >= 5 {
            Err(Fault::OutOfBounds)
        } else {
            Ok(true)
        }
    }

    /// The state after a move attempt: an accepted move overwrites the cell
    /// with the mover's marker, whatever it held.
    pub open spec fn after_move(self, who: AccountId, x: u32, y: u32) -> GameState {
        if self.move_outcome(who, x, y) == Ok::<bool, Fault>(true) {
            GameState { board: self.board.update(x * 5 + y, self.markers[who]), ..self }
        } else {
            self
        }
    }

    /// The amount that a reward claim by `who` pays out of a session holding
    /// `balance`: all of it to the latched winner, nothing to anyone else.
    pub open spec fn reward(self, who: AccountId, balance: u128) -> Option<u128> {
        if who == self.winner {
            Some(balance)
        } else {
            None
        }
    }

    /// The state after a win of `who` has been latched.
    pub open spec fn latched(self, who: AccountId) -> GameState {
        GameState { terminated: true, winner: who, ..self }
    }
}

/// The marker that the pairs give `who`: the latest pair for it wins.
pub open spec fn marker_in(pairs: Seq<(AccountId, u8)>, who: AccountId) -> Option<u8>
    decreases pairs.len(),
{
    if pairs.len() == 0 {
        None
    } else if pairs.last().0 == who {
        Some(pairs.last().1)
    } else {
        marker_in(pairs.drop_last(), who)
    }
}

proof fn lemma_marker_push(pairs: Seq<(AccountId, u8)>, who: AccountId, number: u8)
    ensures
        marker_map(pairs.push((who, number))) == marker_map(pairs).insert(who, number),
{
    assert(pairs.push((who, number)).drop_last() =~= pairs);
    assert(marker_map(pairs.push((who, number))) =~= marker_map(pairs).insert(who, number));
}

/// The markers that the pairs give, as a map.
pub open spec fn marker_map(pairs: Seq<(AccountId, u8)>) -> Map<AccountId, u8> {
    Map::new(|k: AccountId| marker_in(pairs, k) is Some, |k: AccountId| marker_in(pairs, k)->0)
}

/// One game session: the board, the registered players, and the outcome.
pub struct TicTacToe {
    map: Vec<u8>,
    allowed_players: Vec<AccountId>,
    started: bool,
    player_number: Vec<(AccountId, u8)>,
    terminated: bool,
    winner: AccountId,
}

impl View for TicTacToe {
    type V = GameState;

    closed spec fn view(&self) -> GameState {
        GameState {
            board: self.map@,
            players: self.allowed_players@,
            markers: marker_map(self.player_number@),
            started: self.started,
            terminated: self.terminated,
            winner: self.winner,
        }
    }
}

impl TicTacToe {
    pub open spec fn wf(&self) -> bool {
        self@.valid()
    }

    /// A session in registration with an empty board and no players.
    pub fn new() -> (r: TicTacToe)
        ensures
            r.wf(),
            r@.board == Seq::new(25, |i: int| 0u8),
            r@.players.len() == 0,
            r@.markers == Map::<AccountId, u8>::empty(),
            !r@.started,
            !r@.terminated,
            r@.winner == AccountId::spec_zero(),
    {
        let mut map: Vec<u8> = Vec::new();
        let mut k: usize = 0;
        while k < CELLS
            invariant
                k <= CELLS,
                map@ == Seq::new(k as nat, |i: int| 0u8),
            decreases CELLS - k,
        {
            map.push(0);
            k += 1;
        }
        let r = TicTacToe {
            map,
            allowed_players: Vec::new(),
            started: false,
            player_number: Vec::new(),
            terminated: false,
            winner: AccountId::zero(),
        };
        assert(r@.markers =~= Map::<AccountId, u8>::empty());
        r
    }

    /// The marker of `who`, if it registered.
    fn lookup(&self, who: AccountId) -> (r: Option<u8>)
        ensures
            r == marker_in(self.player_number@, who),
    {
        let ghost pairs = self.player_number@;
        let mut i: usize = self.player_number.len();
        assert(pairs.subrange(0, i as int) =~= pairs);
        while i > 0
            invariant
                i <= pairs.len(),
                pairs == self.player_number@,
                marker_in(pairs.subrange(0, i as int), who) == marker_in(pairs, who),
            decreases i,
        {
            let pair = self.player_number[i - 1];
            if pair.0 == who {
                return Some(pair.1);
            }
            assert(pairs.subrange(0, i as int).drop_last() =~= pairs.subrange(0, i - 1));
            i -= 1;
        }
        None
    }

    /// Registers `caller` with marker `player_number`, given the stake sent
    /// with the call. A repeated registration appends the caller again and
    /// replaces its marker.
    pub fn join(&mut self, caller: AccountId, transferred_value: u128, player_number: u8) -> (r: Result<(), Error>)
        requires
            old(self).wf(),
        ensures
            final(self).wf(),
            r == old(self)@.join_outcome(transferred_value),
            final(self)@ == old(self)@.after_join(caller, transferred_value, player_number),
    {
        if self.started || self.terminated {
            return Err(Error::AlreadyStarted);
        }
        if transferred_value < MIN_STAKE {
            return Err(Error::NotEnoughMoney);
        }
        self.allowed_players.push(caller);
        self.player_number.push((caller, player_number));
        proof {
            lemma_marker_push(old(self).player_number@, caller, player_number);
            assert(self@ =~= old(self)@.joined(caller, player_number));
        }
        Ok(())
    }

    /// Activates the game once at least two registrations were made.
    pub fn start(&mut self) -> (r: Result<(), Error>)
        requires
            old(self).wf(),
        ensures
            final(self).wf(),
            r == old(self)@.start_outcome(),
            final(self)@ == old(self)@.after_start(),
    {
        if self.allowed_players.len() >= 2 {
            self.started = true;
            Ok(())
        } else {
            Err(Error::NotStarted)
        }
    }

    /// Writes the marker of `caller` into row `coord_x`, column `coord_y`.
    /// Outside the active phase nothing happens and `false` comes back.
    pub fn make_move(&mut self, caller: AccountId, coord_x: u32, coord_y: u32) -> (r: Result<bool, Fault>)
        requires
            old(self).wf(),
        ensures
            final(self).wf(),
            r == old(self)@.move_outcome(caller, coord_x, coord_y),
            final(self)@ == old(self)@.after_move(caller, coord_x, coord_y),
    {
        if !self.started || self.terminated {
            return Ok(false);
        }
        let m = match self.lookup(caller) {
            Some(m) => m,
            None => {
                return Err(Fault::NotRegistered);
            }
        };
        if coord_x >= 5 || coord_y >= 5 {
            return Err(Fault::OutOfBounds);
        }
        let idx = coord_x as usize * SIDE + coord_y as usize;
        self.map.set(idx, m);
        assert(self@ =~= old(self)@.after_move(caller, coord_x, coord_y));
        Ok(true)
    }

    /// The board as text: "Map: ", then each row's markers in decimal
    /// followed by a space.
    pub fn get_map(&self) -> (r: String)
        requires
            self.wf(),
        ensures
            r@ == rendered(self@.board),
    {
        render(&self.map)
    }

    /// The latched winner, or the zero identity while nobody has won.
    pub fn get_winner(&self) -> (r: AccountId)
        ensures
            r == self@.winner,
    {
        self.winner
    }

    /// Decides a reward claim by `caller` while the session holds `balance`.
    /// `Some(amount)` is what is to be transferred to the caller.
    pub fn claim_reward(&self, caller: AccountId, balance: u128) -> (r: Option<u128>)
        ensures
            r == self@.reward(caller, balance),
    {
        if caller == self.winner {
            Some(balance)
        } else {
            None
        }
    }

    /// The marker that `caller` registered with.
    pub fn get_number(&self, caller: AccountId) -> (r: Result<u8, Fault>)
        ensures
            r == (if self@.markers.contains_key(caller) {
                Ok::<u8, Fault>(self@.markers[caller])
            } else {
                Err::<u8, Fault>(Fault::NotRegistered)
            }),
    {
        match self.lookup(caller) {
            Some(m) => Ok(m),
            None => Err(Fault::NotRegistered),
        }
    }

    /// Looks for a winner: the first registered account, in order of
    /// registration, whose marker owns a full row or a full column. A winner
    /// found is latched and the session ends.
    pub fn has_won(&mut self) -> (r: Result<AccountId, Error>)
        requires
            old(self).wf(),
        ensures
            final(self).wf(),
            r is Ok <==> !old(self)@.no_winner(),
            match r {
                Ok(p) => exists|i: int|
                    #[trigger] old(self)@.first_winner_at(i) && p == old(self)@.players[i]
                        && final(self)@ == old(self)@.latched(p),
                Err(e) => e == Error::NotStarted && old(self)@.no_winner() && final(self)@ == old(self)@,
            },
    {
        let mut i: usize = 0;
        while i < self.allowed_players.len()
            invariant
                self.wf(),
                *self == *old(self),
                i <= self@.players.len(),
                forall|j: int| 0 <= j < i ==> !#[trigger] self@.wins(self@.players[j]),
            decreases self@.players.len() - i,
        {
            let who = self.allowed_players[i];
            assert(self@.markers.contains_key(self@.players[i as int]));
            let m = match self.lookup(who) {
                Some(m) => m,
                None => {
                    // Every registered account has a marker.
                    assert(false);
                    return Err(Error::NotStarted);
                }
            };
            assert(m == self@.markers[who]);
            if line_owned(&self.map, m) {
                assert(self@.first_winner_at(i as int));
                self.terminated = true;
                self.winner = who;
                assert(self@ =~= old(self)@.latched(who));
                return Ok(who);
            }
            i += 1;
        }
        assert(self@.no_winner());
        Err(Error::NotStarted)
    }
}

} // verus!
