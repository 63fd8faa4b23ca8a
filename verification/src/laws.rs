//! Global properties of the table model, proved once and for all inputs.

use crate::model::spec_create;
use crate::model::spec_register;
use crate::model::spec_start;
use crate::model::spec_terminate;
use crate::model::AccountId;
use crate::model::TableError;
use crate::model::TableModel;
use crate::model::MAX_PLAYERS;
use crate::model::MIN_PLAYERS;
use crate::model::STATE;
use vstd::prelude::*;

verus! {

/// A table just created seats the initializer alone, holds their single
/// stake as the pot, is staging, and satisfies the table invariant.
pub proof fn lemma_create_establishes_inv(initializer: AccountId, required_start_bet: int)
    requires
        required_start_bet > 0,
    ensures
        spec_create(initializer, required_start_bet) matches Ok(t) && t.inv() && t.players
            =~= seq![initializer] && t.pot == required_start_bet && t.state == STATE::STAGING,
{
}

/// A successful registration seats exactly one more player and keeps the
/// pot at one entry bet per seated player: after `n` successful
/// registrations, the initializer included, the pot is `n` times the
/// entry bet.
pub proof fn lemma_register_preserves_inv(t: TableModel, caller: AccountId, start_bet: int)
    requires
        t.inv(),
        spec_register(t, caller, start_bet) is Ok,
    ensures
        spec_register(t, caller, start_bet)->Ok_0.inv(),
        spec_register(t, caller, start_bet)->Ok_0.players.len() == t.players.len() + 1,
        spec_register(t, caller, start_bet)->Ok_0.pot == t.required_start_bet * (t.players.len()
            + 1),
{
    let t2 = spec_register(t, caller, start_bet)->Ok_0;
    let b = t.required_start_bet;
    let n = t.players.len() as int;
    assert(b * n + b == b * (n + 1)) by (nonlinear_arith);
}

/// Starting the game changes the lifecycle state alone and preserves the
/// table invariant.
pub proof fn lemma_start_preserves_inv(t: TableModel)
    requires
        t.inv(),
        spec_start(t) is Ok,
    ensures
        spec_start(t)->Ok_0.inv(),
        spec_start(t)->Ok_0.players == t.players,
        spec_start(t)->Ok_0.pot == t.pot,
{
}

/// Registering the same identity twice is rejected on the second attempt
/// as a duplicate, however often others registered in between, as long
/// as the table still has a free seat (at a full table the capacity
/// check answers first). The rejection leaves the table unchanged.
pub proof fn lemma_duplicate_registration_rejected(
    t: TableModel,
    t2: TableModel,
    caller: AccountId,
    start_bet: int,
)
    requires
        spec_register(t, caller, start_bet) == Ok::<TableModel, TableError>(t2),
        t2.players.len() < MAX_PLAYERS as int,
    ensures
        spec_register(t2, caller, start_bet) == Err::<TableModel, TableError>(
            TableError::DuplicateRegistration,
        ),
{
    assert(t2.players[t.players.len() as int] == caller);
    assert(t2.players.contains(caller));
}

/// Any stake other than the table's fixed entry bet is rejected as a
/// mismatch, over- and under-payment alike; the rejection leaves the
/// table unchanged. (At a full or non-staging table those guards answer
/// first.)
pub proof fn lemma_bet_mismatch_rejected(t: TableModel, caller: AccountId, start_bet: int)
    requires
        t.state == STATE::STAGING,
        t.players.len() < MAX_PLAYERS as int,
        start_bet != t.required_start_bet,
    ensures
        spec_register(t, caller, start_bet) == Err::<TableModel, TableError>(
            TableError::BetMismatch,
        ),
{
}

/// A registration on a staging table that already seats `MAX_PLAYERS` is
/// rejected as full, whoever calls and whatever they stake.
pub proof fn lemma_full_table_rejects_registration(
    t: TableModel,
    caller: AccountId,
    start_bet: int,
)
    requires
        t.state == STATE::STAGING,
        t.players.len() >= MAX_PLAYERS as int,
    ensures
        spec_register(t, caller, start_bet) == Err::<TableModel, TableError>(TableError::TableFull),
{
}

/// On a staging table, starting with fewer than `MIN_PLAYERS` seated is
/// rejected for want of a quorum; with the quorum seated it succeeds,
/// moves the table to playing and changes nothing else.
pub proof fn lemma_quorum_gates_start(t: TableModel)
    requires
        t.state == STATE::STAGING,
    ensures
        t.players.len() < MIN_PLAYERS as int ==> spec_start(t) == Err::<TableModel, TableError>(
            TableError::InsufficientPlayers,
        ),
        t.players.len() >= MIN_PLAYERS as int ==> (spec_start(t) matches Ok(t2) && t2 == (
        TableModel { state: STATE::PLAYING, ..t })),
{
}

/// Once the game is playing, registration, start and termination are all
/// rejected, each with its own error; every rejection leaves the table
/// unchanged.
pub proof fn lemma_playing_rejects_all(t: TableModel, caller: AccountId, start_bet: int)
    requires
        t.state == STATE::PLAYING,
    ensures
        spec_register(t, caller, start_bet) == Err::<TableModel, TableError>(
            TableError::TableNotAcceptingPlayers,
        ),
        spec_start(t) == Err::<TableModel, TableError>(TableError::TableNotAcceptingPlayers),
        spec_terminate(t, caller) == Err::<TableModel, TableError>(TableError::TableNotTerminable),
{
}

/// An ended table rejects the same three operations with the same
/// errors.
pub proof fn lemma_ended_rejects_all(t: TableModel, caller: AccountId, start_bet: int)
    requires
        t.state == STATE::ENDED,
    ensures
        spec_register(t, caller, start_bet) == Err::<TableModel, TableError>(
            TableError::TableNotAcceptingPlayers,
        ),
        spec_start(t) == Err::<TableModel, TableError>(TableError::TableNotAcceptingPlayers),
        spec_terminate(t, caller) == Err::<TableModel, TableError>(TableError::TableNotTerminable),
{
}

/// Registration order is preserved: a successful registration appends
/// the caller to the end of the list, and the initializer stays first.
pub proof fn lemma_registration_order(t: TableModel, caller: AccountId, start_bet: int)
    requires
        t.inv(),
        spec_register(t, caller, start_bet) is Ok,
    ensures
        spec_register(t, caller, start_bet)->Ok_0.players =~= t.players.push(caller),
        spec_register(t, caller, start_bet)->Ok_0.players[0] == t.initializer,
{
}

/// The lifecycle state only moves forward: registration and termination
/// never change it, and a successful start moves a staging table to
/// playing; nothing returns a table to staging.
pub proof fn lemma_state_only_forward(t: TableModel, caller: AccountId, start_bet: int)
    ensures
        spec_register(t, caller, start_bet) matches Ok(t2) ==> t2.state == t.state,
        spec_terminate(t, caller) matches Ok(t2) ==> t2.state == t.state,
        spec_start(t) matches Ok(t2) ==> t.state == STATE::STAGING && t2.state == STATE::PLAYING,
{
}

} // verus!
