//! The executable table manager.
//!
//! [`Metasino`] owns the full state of one table. Each operation's
//! contract says that its result and the table afterwards are exactly
//! what the corresponding transition function of the model gives; the
//! query operations return the model's fields. The hosting environment
//! resolves each caller's identity and passes it in.

use crate::model::spec_create;
use crate::model::spec_register;
use crate::model::spec_start;
use crate::model::spec_terminate;
use crate::model::AccountId;
use crate::model::NewTableOpened;
use crate::model::TableError;
use crate::model::TableModel;
use crate::model::MAX_PLAYERS;
use crate::model::MIN_PLAYERS;
use crate::model::STATE;
use vstd::prelude::*;

verus! {

/// One table of the betting game.
///
/// The pot is held one integer width wider than the entry bet, so that
/// `MAX_PLAYERS` maximal stakes always fit and no operation can overflow
/// it.
pub struct Metasino {
    /// Account which opened the table.
    initializer: AccountId,
    /// The seated players, in registration order.
    players: Vec<AccountId>,
    /// The entry bet fixed at creation.
    required_start_bet: u64,
    /// The accumulated pot.
    pot: u128,
    /// The lifecycle state of the table.
    state: STATE,
}

impl View for Metasino {
    type V = TableModel;

    closed spec fn view(&self) -> TableModel {
        TableModel {
            initializer: self.initializer,
            players: self.players@,
            required_start_bet: self.required_start_bet as int,
            pot: self.pot as int,
            state: self.state,
        }
    }
}

/// Whether `id` is seated in `players`.
fn contains_player(players: &Vec<AccountId>, id: AccountId) -> (found: bool)
    ensures
        found == players@.contains(id),
{
    let mut i: usize = 0;
    while i < players.len()
        invariant
            i <= players@.len(),
            forall|k: int| 0 <= k < i ==> players@[k] != id,
        decreases players@.len() - i,
    {
        if players[i] == id {
            return true;
        }
        i = i + 1;
    }
    false
}

impl Metasino {
    /// Open a new table: the initializer is seated first and their stake
    /// seeds the pot.
    pub fn new(initializer: AccountId, required_start_bet: u64) -> (r: Result<
        Metasino,
        TableError,
    >)
        ensures
            match spec_create(initializer, required_start_bet as int) {
                Ok(t) => r matches Ok(m) && m@ == t && t.inv(),
                Err(e) => r matches Err(a) && a == e,
            },
    {
        if required_start_bet == 0 {
            return Err(TableError::InvalidBetAmount);
        }
        let mut players: Vec<AccountId> = Vec::new();
        players.push(initializer);
        let table = Metasino {
            initializer,
            players,
            required_start_bet,
            pot: required_start_bet as u128,
            state: STATE::STAGING,
        };
        proof {
            let t = spec_create(initializer, required_start_bet as int)->Ok_0;
            assert(table@ =~= t);
        }
        Ok(table)
    }

    /// The notification that this table's opening emits, for the hosting
    /// environment to deliver.
    pub fn new_table_opened_event(&self) -> (e: NewTableOpened)
        ensures
            e.initiator == self@.initializer,
            e.required_start_bet as int == self@.required_start_bet,
    {
        NewTableOpened { initiator: self.initializer, required_start_bet: self.required_start_bet }
    }

    /// Seat the caller at the table against a stake of exactly the
    /// required entry bet.
    pub fn register_player(&mut self, caller: AccountId, start_bet: u64) -> (r: Result<
        (),
        TableError,
    >)
        requires
            old(self)@.inv(),
        ensures
            final(self)@.inv(),
            match spec_register(old(self)@, caller, start_bet as int) {
                Ok(t) => r == Ok::<(), TableError>(()) && final(self)@ == t,
                Err(e) => r == Err::<(), TableError>(e) && final(self)@ == old(self)@,
            },
    {
        if self.state != STATE::STAGING {
            return Err(TableError::TableNotAcceptingPlayers);
        }
        if self.players.len() >= MAX_PLAYERS as usize {
            return Err(TableError::TableFull);
        }
        if start_bet != self.required_start_bet {
            return Err(TableError::BetMismatch);
        }
        if contains_player(&self.players, caller) {
            return Err(TableError::DuplicateRegistration);
        }
        proof {
            let b = self.required_start_bet as int;
            let n = self.players@.len() as int;
            assert(b * n + b == b * (n + 1)) by (nonlinear_arith);
            assert(b * (n + 1) <= b * (MAX_PLAYERS as int)) by (nonlinear_arith)
                requires
                    b >= 0,
                    n + 1 <= MAX_PLAYERS as int,
            ;
        }
        self.pot = self.pot + start_bet as u128;
        self.players.push(caller);
        proof {
            let t = spec_register(old(self)@, caller, start_bet as int)->Ok_0;
            assert(self@ =~= t);
            let b = self@.required_start_bet;
            let n = old(self)@.players.len() as int;
            assert(b * n + b == b * (n + 1)) by (nonlinear_arith);
        }
        Ok(())
    }

    /// Move the table from staging to playing, once the quorum of
    /// `MIN_PLAYERS` is seated. Any caller may start the game.
    pub fn start_game(&mut self) -> (r: Result<(), TableError>)
        requires
            old(self)@.inv(),
        ensures
            final(self)@.inv(),
            match spec_start(old(self)@) {
                Ok(t) => r == Ok::<(), TableError>(()) && final(self)@ == t,
                Err(e) => r == Err::<(), TableError>(e) && final(self)@ == old(self)@,
            },
    {
        if self.state != STATE::STAGING {
            return Err(TableError::TableNotAcceptingPlayers);
        }
        if self.players.len() < MIN_PLAYERS as usize {
            return Err(TableError::InsufficientPlayers);
        }
        self.state = STATE::PLAYING;
        proof {
            let t = spec_start(old(self)@)->Ok_0;
            assert(self@ =~= t);
        }
        Ok(())
    }

    /// Tear the table down: every seated player is refused, anyone else
    /// empties the player list; pot, entry bet and state are left as
    /// they were.
    pub fn terminate(&mut self, caller: AccountId) -> (r: Result<(), TableError>)
        requires
            old(self)@.inv(),
        ensures
            match spec_terminate(old(self)@, caller) {
                Ok(t) => r == Ok::<(), TableError>(()) && final(self)@ == t,
                Err(e) => r == Err::<(), TableError>(e) && final(self)@ == old(self)@
                    && final(self)@.inv(),
            },
    {
        if self.state != STATE::STAGING {
            return Err(TableError::TableNotTerminable);
        }
        if contains_player(&self.players, caller) {
            return Err(TableError::NotAuthorized);
        }
        self.players.clear();
        proof {
            let t = spec_terminate(old(self)@, caller)->Ok_0;
            assert(self@ =~= t);
        }
        Ok(())
    }

    /// The lifecycle state of the table.
    pub fn get_table_state(&self) -> (s: STATE)
        ensures
            s == self@.state,
    {
        self.state
    }

    /// The number of players seated at the table.
    pub fn get_players_count(&self) -> (n: u8)
        requires
            self@.players.len() <= u8::MAX as int,
        ensures
            n as int == self@.players.len(),
    {
        self.players.len() as u8
    }

    /// The accumulated pot.
    pub fn get_accumulated_pot(&self) -> (p: u128)
        ensures
            p as int == self@.pot,
    {
        self.pot
    }

    /// The seated players, in registration order, the initializer first;
    /// a defensive copy.
    pub fn get_players(&self) -> (ps: Vec<AccountId>)
        ensures
            ps@ == self@.players,
    {
        let mut ps: Vec<AccountId> = Vec::new();
        let mut i: usize = 0;
        while i < self.players.len()
            invariant
                i <= self.players@.len(),
                ps@ == self.players@.subrange(0, i as int),
            decreases self.players@.len() - i,
        {
            ps.push(self.players[i]);
            i = i + 1;
        }
        proof {
            assert(ps@ =~= self@.players);
        }
        ps
    }

    /// The entry bet fixed at creation.
    pub fn get_required_start_bet(&self) -> (b: u64)
        ensures
            b as int == self@.required_start_bet,
    {
        self.required_start_bet
    }

    /// Account which opened the table.
    pub fn get_initializer(&self) -> (a: AccountId)
        ensures
            a == self@.initializer,
    {
        self.initializer
    }
}

} // verus!
