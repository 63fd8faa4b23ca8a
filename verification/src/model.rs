//! The mathematical model of a table.
//!
//! [`TableModel`] is the ghost value of a table; the four transition
//! functions [`spec_create`], [`spec_register`], [`spec_start`] and
//! [`spec_terminate`] say exactly what each operation returns and how it
//! changes the table, for every input. The executable manager promises
//! to follow these functions; the lemmas of the crate prove the global
//! properties from them.

use vstd::prelude::*;

verus! {

/// The most players a table seats.
pub const MAX_PLAYERS: u8 = 10;

/// The fewest players with which a game may start.
pub const MIN_PLAYERS: u8 = 3;

/// The identity of a caller, as resolved by the hosting environment.
#[allow(non_camel_case_types)]
#[derive(Clone, Copy, Debug, PartialEq, Eq, Structural)]
pub struct AccountId(pub u64);

/// The lifecycle state of a table.
#[allow(non_camel_case_types)]
#[derive(Clone, Copy, Debug, PartialEq, Eq, Structural)]
pub enum STATE {
    STAGING,
    PLAYING,
    ENDED,
}

/// Why an operation on a table was rejected. Every failure leaves the
/// table unchanged.
#[derive(Clone, Copy, Debug, PartialEq, Eq, Structural)]
pub enum TableError {
    /// A table was opened with a non-positive entry bet.
    InvalidBetAmount,
    /// A registration was attempted while the table is not staging.
    TableNotAcceptingPlayers,
    /// A registration was attempted on a table already seating
    /// `MAX_PLAYERS`.
    TableFull,
    /// A registration staked anything other than the table's fixed
    /// entry bet.
    BetMismatch,
    /// The caller is already seated at the table.
    DuplicateRegistration,
    /// A start was attempted with fewer than `MIN_PLAYERS` seated.
    InsufficientPlayers,
    /// A termination was attempted by a seated player.
    NotAuthorized,
    /// A termination was attempted while the table is not staging.
    TableNotTerminable,
}

/// Notification that a new table was opened, for the hosting environment
/// to deliver to its log.
#[derive(Clone, Copy, Debug, PartialEq, Eq, Structural)]
pub struct NewTableOpened {
    pub initiator: AccountId,
    pub required_start_bet: u64,
}

/// Notification that the player quorum was reached. Declared for the
/// hosting environment; no operation emits it.
#[derive(Clone, Copy, Debug, PartialEq, Eq, Structural)]
pub struct MinimumPlayerReached {
    pub account_id: AccountId,
}

/// The ghost value of a table: what the executable manager's contracts
/// speak of.
#[verifier::ext_equal]
pub ghost struct TableModel {
    /// Whoever opened the table; immutable after creation.
    pub initializer: AccountId,
    /// The seated players, in registration order, the initializer first.
    pub players: Seq<AccountId>,
    /// The entry bet fixed at creation; immutable.
    pub required_start_bet: int,
    /// The accumulated pot: one entry bet per seated player.
    pub pot: int,
    /// The lifecycle state.
    pub state: STATE,
}

impl TableModel {
    /// The invariant of a live table: established by creation, preserved
    /// by registration and start, and broken only by termination, which
    /// empties the table.
    pub open spec fn inv(self) -> bool {
        &&& self.required_start_bet > 0
        &&& 1 <= self.players.len() <= MAX_PLAYERS as int
        &&& self.pot == self.required_start_bet * self.players.len()
        &&& self.players[0] == self.initializer
        &&& forall|i: int, j: int|
            0 <= i < j < self.players.len() ==> self.players[i] != self.players[j]
    }
}

/// Opening a table: rejected when the entry bet is not positive;
/// otherwise the initializer is seated alone and stakes the pot's first
/// entry bet.
pub open spec fn spec_create(initializer: AccountId, required_start_bet: int) -> Result<
    TableModel,
    TableError,
> {
    if required_start_bet <= 0 {
        Err(TableError::InvalidBetAmount)
    } else {
        Ok(
            TableModel {
                initializer,
                players: seq![initializer],
                required_start_bet,
                pot: required_start_bet,
                state: STATE::STAGING,
            },
        )
    }
}

/// Registering a player: the state guard comes first, then capacity,
/// then the exact-bet check, then the duplicate check; on success the
/// caller is appended and the pot grows by the entry bet.
pub open spec fn spec_register(t: TableModel, caller: AccountId, start_bet: int) -> Result<
    TableModel,
    TableError,
> {
    if t.state != STATE::STAGING {
        Err(TableError::TableNotAcceptingPlayers)
    } else if t.players.len() >= MAX_PLAYERS as int {
        Err(TableError::TableFull)
    } else if start_bet != t.required_start_bet {
        Err(TableError::BetMismatch)
    } else if t.players.contains(caller) {
        Err(TableError::DuplicateRegistration)
    } else {
        Ok(TableModel { players: t.players.push(caller), pot: t.pot + start_bet, ..t })
    }
}

/// Starting the game: the state guard comes first, then the quorum
/// check; on success the table moves to `PLAYING` and nothing else
/// changes.
pub open spec fn spec_start(t: TableModel) -> Result<TableModel, TableError> {
    if t.state != STATE::STAGING {
        Err(TableError::TableNotAcceptingPlayers)
    } else if t.players.len() < MIN_PLAYERS as int {
        Err(TableError::InsufficientPlayers)
    } else {
        Ok(TableModel { state: STATE::PLAYING, ..t })
    }
}

/// Terminating the table: the state guard comes first; then any caller
/// who is seated is rejected, and anyone else may terminate. On success
/// the player list is emptied; pot, entry bet and state are left as they
/// were.
pub open spec fn spec_terminate(t: TableModel, caller: AccountId) -> Result<
    TableModel,
    TableError,
> {
    if t.state != STATE::STAGING {
        Err(TableError::TableNotTerminable)
    } else if t.players.contains(caller) {
        Err(TableError::NotAuthorized)
    } else {
        Ok(TableModel { players: Seq::<AccountId>::empty(), ..t })
    }
}

} // verus!
